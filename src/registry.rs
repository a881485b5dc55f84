use vstd::prelude::*;

verus! {

/// The origin tag of streams that come from the bridged network.
pub open spec fn bridged_tag() -> Seq<char> {
    "cloudflare"@
}

/// One entry of a registry listing.
pub struct StreamInfo {
    /// Identifier of the stream; it is also its path on the home network.
    pub stream_id: String,
    /// The network the stream comes from; absent means the bridged network.
    pub origin: Option<String>,
}

/// The origin of an entry once the default has been applied.
pub open spec fn effective_origin(e: StreamInfo) -> Seq<char> {
    match e.origin {
        Some(o) => o@,
        None => bridged_tag(),
    }
}

/// An entry is a bridging candidate when it comes from the bridged network.
pub open spec fn is_candidate(e: StreamInfo) -> bool {
    effective_origin(e) == bridged_tag()
}

/// The candidates of a listing, in the order of the listing.
pub open spec fn candidates(s: Seq<StreamInfo>) -> Seq<StreamInfo>
    decreases s.len(),
{
    if s.len() == 0 {
        Seq::empty()
    } else if is_candidate(s.last()) {
        candidates(s.drop_last()).push(s.last())
    } else {
        candidates(s.drop_last())
    }
}

/// The origin tag assumed for an entry that names none.
pub fn default_origin() -> (r: String)
    ensures
        r@ == bridged_tag(),
{
    String::from_str("cloudflare")
}

impl StreamInfo {
    /// The origin of this entry, with the default applied.
    pub fn origin_or_default(&self) -> (r: String)
        ensures
            r@ == effective_origin(*self),
    {
        match &self.origin {
            Some(o) => o.clone(),
            None => default_origin(),
        }
    }

    /// Whether this entry is a bridging candidate.
    pub fn is_candidate(&self) -> (r: bool)
        ensures
            r == is_candidate(*self),
    {
        let origin = self.origin_or_default();
        let tag = default_origin();
        origin == tag
    }
}

/// Keeps the entries of a listing that come from the bridged network.
pub fn select_streams(entries: Vec<StreamInfo>) -> (r: Vec<StreamInfo>)
    ensures
        r@ == candidates(entries@),
{
    let mut out: Vec<StreamInfo> = Vec::new();
    let mut i: usize = 0;
    while i < entries.len()
        invariant
            i <= entries.len(),
            out@ == candidates(entries@.take(i as int)),
        decreases entries.len() - i,
    {
        let e = &entries[i];
        assert(entries@.take(i as int + 1).drop_last() == entries@.take(i as int));
        if e.is_candidate() {
            out.push(StreamInfo { stream_id: e.stream_id.clone(), origin: e.origin.clone() });
        }
        i = i + 1;
    }
    assert(entries@.take(entries.len() as int) == entries@);
    out
}

/// Of three entries, one without an origin, one from the bridged network and
/// one from elsewhere, exactly the first two are candidates.
pub proof fn lemma_origin_filter(absent: StreamInfo, tagged: StreamInfo, other: StreamInfo)
    requires
        absent.origin is None,
        tagged.origin is Some && tagged.origin->Some_0@ == bridged_tag(),
        other.origin is Some && other.origin->Some_0@ != bridged_tag(),
    ensures
        candidates(seq![absent, tagged, other]) == seq![absent, tagged],
{
    let s = seq![absent, tagged, other];
    assert(s.drop_last() == seq![absent, tagged]);
    assert(seq![absent, tagged].drop_last() == seq![absent]);
    assert(seq![absent].drop_last() == Seq::<StreamInfo>::empty());
    assert(Seq::<StreamInfo>::empty().push(absent) == seq![absent]);
    assert(seq![absent].push(tagged) == seq![absent, tagged]);
    assert(candidates(Seq::<StreamInfo>::empty()) == Seq::<StreamInfo>::empty());
    assert(candidates(seq![absent]) == seq![absent]);
    assert(candidates(seq![absent, tagged]) == seq![absent, tagged]);
}

} // verus!
