use vstd::prelude::*;
use crate::registry::{candidates, select_streams, StreamInfo};

verus! {

/// The identifiers of a listing's entries, in order.
pub open spec fn stream_ids(s: Seq<StreamInfo>) -> Seq<Seq<char>> {
    s.map_values(|e: StreamInfo| e.stream_id@)
}

/// The views of a sequence of strings.
pub open spec fn string_views(s: Seq<String>) -> Seq<Seq<char>> {
    s.map_values(|e: String| e@)
}

/// The identifiers that one poll tick reserves, in order: each identifier of
/// the listing that is not active yet, the first time it is listed.
pub open spec fn newly_reserved(active: Set<Seq<char>>, ids: Seq<Seq<char>>) -> Seq<Seq<char>>
    decreases ids.len(),
{
    if ids.len() == 0 {
        Seq::empty()
    } else {
        let prev = newly_reserved(active, ids.drop_last());
        let x = ids.last();
        if active.contains(x) || ids.drop_last().contains(x) {
            prev
        } else {
            prev.push(x)
        }
    }
}

/// How many times `x` stands in `s`.
pub open spec fn occurrences(s: Seq<Seq<char>>, x: Seq<char>) -> nat
    decreases s.len(),
{
    if s.len() == 0 {
        0
    } else if s.last() == x {
        occurrences(s.drop_last(), x) + 1
    } else {
        occurrences(s.drop_last(), x)
    }
}

/// The set of stream identifiers that are being bridged.
pub struct ActiveBridges {
    ids: Vec<String>,
}

impl View for ActiveBridges {
    type V = Set<Seq<char>>;

    closed spec fn view(&self) -> Set<Seq<char>> {
        string_views(self.ids@).to_set()
    }
}

impl ActiveBridges {
    /// No identifier is held twice.
    pub closed spec fn wf(&self) -> bool {
        string_views(self.ids@).no_duplicates()
    }

    /// An empty set.
    pub fn new() -> (r: ActiveBridges)
        ensures
            r.wf(),
            r@ == Set::<Seq<char>>::empty(),
    {
        let r = ActiveBridges { ids: Vec::new() };
        assert(r@ =~= Set::<Seq<char>>::empty());
        r
    }

    /// The number of identifiers being bridged.
    pub fn len(&self) -> (r: usize)
        requires
            self.wf(),
        ensures
            r == self@.len(),
    {
        proof {
            string_views(self.ids@).unique_seq_to_set();
        }
        self.ids.len()
    }

    fn find(&self, id: &String) -> (r: Option<usize>)
        ensures
            match r {
                Some(i) => i < self.ids@.len() && self.ids@[i as int]@ == id@,
                None => !self@.contains(id@),
            },
    {
        let mut i: usize = 0;
        while i < self.ids.len()
            invariant
                i <= self.ids@.len(),
                forall|j: int| 0 <= j < i ==> self.ids@[j]@ != id@,
            decreases self.ids@.len() - i,
        {
            if self.ids[i] == *id {
                return Some(i);
            }
            i = i + 1;
        }
        assert(!string_views(self.ids@).contains(id@)) by {
            if string_views(self.ids@).contains(id@) {
                let j = choose|j: int| 0 <= j < self.ids@.len() && string_views(self.ids@)[j] == id@;
                assert(self.ids@[j]@ != id@);
            }
        }
        None
    }

    /// Whether `id` is being bridged.
    pub fn contains(&self, id: &String) -> (r: bool)
        ensures
            r == self@.contains(id@),
    {
        match self.find(id) {
            Some(i) => {
                assert(string_views(self.ids@)[i as int] == id@);
                true
            },
            None => false,
        }
    }

    /// Reserves `id` unless it is already being bridged, in one step: the
    /// result says whether this call reserved it.
    pub fn try_reserve(&mut self, id: &String) -> (r: bool)
        requires
            old(self).wf(),
        ensures
            final(self).wf(),
            r == !old(self)@.contains(id@),
            final(self)@ == old(self)@.insert(id@),
    {
        if self.contains(id) {
            assert(self@.insert(id@) =~= self@);
            false
        } else {
            let ghost before = string_views(self.ids@);
            self.ids.push(id.clone());
            assert(string_views(self.ids@) =~= before.push(id@));
            proof {
                before.lemma_push_to_set_commute(id@);
            }
            true
        }
    }

    /// Releases `id`, which makes it eligible again.
    pub fn release(&mut self, id: &String)
        requires
            old(self).wf(),
        ensures
            final(self).wf(),
            final(self)@ == old(self)@.remove(id@),
    {
        match self.find(id) {
            Some(i) => {
                let ghost before = string_views(self.ids@);
                let ghost old_set = self@;
                self.ids.remove(i);
                let ghost after = string_views(self.ids@);
                assert(after =~= before.remove(i as int));
                assert(before[i as int] == id@);
                assert forall|x: Seq<char>| #[trigger] after.contains(x) == (before.contains(x) && x != id@) by {
                    if after.contains(x) {
                        let k = choose|k: int| 0 <= k < after.len() && after[k] == x;
                        if k < i {
                            assert(before[k] == x);
                            assert(k != i);
                        } else {
                            assert(before[k + 1] == x);
                            assert(k + 1 != i);
                        }
                    }
                    if before.contains(x) && x != id@ {
                        let k = choose|k: int| 0 <= k < before.len() && before[k] == x;
                        assert(k != i);
                        if k < i {
                            assert(after[k] == x);
                        } else {
                            assert(after[k - 1] == x);
                        }
                    }
                }
                assert(self@ =~= old_set.remove(id@));
            },
            None => {
                assert(self@.remove(id@) =~= self@);
            },
        }
    }

    /// One poll tick: reserves each listed stream that is not being bridged
    /// yet and returns the identifiers it reserved, each one once.
    pub fn reserve_new(&mut self, streams: &Vec<StreamInfo>) -> (r: Vec<String>)
        requires
            old(self).wf(),
        ensures
            final(self).wf(),
            string_views(r@) == newly_reserved(old(self)@, stream_ids(streams@)),
            final(self)@ == old(self)@.union(stream_ids(streams@).to_set()),
    {
        let ghost active = self@;
        let ghost ids = stream_ids(streams@);
        let mut out: Vec<String> = Vec::new();
        let mut i: usize = 0;
        assert(ids.take(0).to_set() =~= Set::<Seq<char>>::empty());
        assert(active.union(Set::empty()) =~= active);
        while i < streams.len()
            invariant
                i <= streams@.len(),
                ids == stream_ids(streams@),
                self.wf(),
                self@ == active.union(ids.take(i as int).to_set()),
                string_views(out@) == newly_reserved(active, ids.take(i as int)),
            decreases streams@.len() - i,
        {
            let id = &streams[i].stream_id;
            let ghost prefix = ids.take(i as int);
            let ghost next = ids.take(i as int + 1);
            assert(next =~= prefix.push(id@));
            assert(next.drop_last() =~= prefix);
            proof {
                prefix.lemma_push_to_set_commute(id@);
            }
            let ghost before_out = string_views(out@);
            if self.try_reserve(id) {
                out.push(id.clone());
                assert(string_views(out@) =~= before_out.push(id@));
            }
            assert(self@ =~= active.union(next.to_set()));
            i = i + 1;
        }
        assert(ids.take(streams@.len() as int) =~= ids);
        out
    }

    /// One poll tick on what the registry returned, `None` when the fetch or
    /// its decoding failed: reserves the candidates of the listing that are not
    /// being bridged yet and returns them. A failed fetch reserves nothing.
    pub fn poll_tick(&mut self, listing: Option<Vec<StreamInfo>>) -> (r: Vec<String>)
        requires
            old(self).wf(),
        ensures
            final(self).wf(),
            match listing {
                Some(entries) => {
                    &&& string_views(r@) == newly_reserved(old(self)@, stream_ids(candidates(entries@)))
                    &&& final(self)@ == old(self)@.union(stream_ids(candidates(entries@)).to_set())
                },
                None => r@.len() == 0 && final(self)@ == old(self)@,
            },
    {
        match listing {
            Some(entries) => {
                let streams = select_streams(entries);
                self.reserve_new(&streams)
            },
            None => Vec::new(),
        }
    }
}

/// Within one poll tick a listed identifier that is not being bridged starts
/// exactly one bridge, however often it is listed; one that is being bridged,
/// or is not listed, starts none.
pub proof fn lemma_single_start(active: Set<Seq<char>>, ids: Seq<Seq<char>>, x: Seq<char>)
    ensures
        occurrences(newly_reserved(active, ids), x) == if !active.contains(x) && ids.contains(x) {
            1nat
        } else {
            0nat
        },
    decreases ids.len(),
{
    if ids.len() > 0 {
        let init = ids.drop_last();
        lemma_single_start(active, init, x);
        assert(ids =~= init.push(ids.last()));
        assert(ids.contains(x) == (init.contains(x) || ids.last() == x)) by {
            if ids.contains(x) && ids.last() != x {
                let k = choose|k: int| 0 <= k < ids.len() && ids[k] == x;
                assert(init[k] == x);
            }
            if init.contains(x) {
                let k = choose|k: int| 0 <= k < init.len() && init[k] == x;
                assert(ids[k] == x);
            }
            if ids.last() == x {
                assert(ids[ids.len() - 1] == x);
            }
        }
        let prev = newly_reserved(active, init);
        assert(prev.push(ids.last()).drop_last() =~= prev);
    }
}

/// The bridges that are running, counted per identifier, agree with the
/// active set before a poll tick, and do so again once the tick has started a
/// bridge for each identifier it reserved: at no instant do two bridges run
/// for one identifier.
pub proof fn lemma_tick_keeps_one_bridge(
    active: Set<Seq<char>>,
    running: spec_fn(Seq<char>) -> nat,
    ids: Seq<Seq<char>>,
)
    requires
        forall|x: Seq<char>| #[trigger] running(x) == if active.contains(x) { 1nat } else { 0nat },
    ensures
        forall|x: Seq<char>|
            #[trigger] running(x) + occurrences(newly_reserved(active, ids), x) == if active.union(
                ids.to_set(),
            ).contains(x) {
                1nat
            } else {
                0nat
            },
{
    assert forall|x: Seq<char>|
        #[trigger] running(x) + occurrences(newly_reserved(active, ids), x) == if active.union(
            ids.to_set(),
        ).contains(x) {
            1nat
        } else {
            0nat
        } by {
        lemma_single_start(active, ids, x);
    }
}

/// When the bridge for `x` ends and `x` is released, the running bridges
/// still agree with the active set.
pub proof fn lemma_release_keeps_one_bridge(
    active: Set<Seq<char>>,
    running: spec_fn(Seq<char>) -> nat,
    x: Seq<char>,
)
    requires
        forall|y: Seq<char>| #[trigger] running(y) == if active.contains(y) { 1nat } else { 0nat },
        running(x) == 1,
    ensures
        forall|y: Seq<char>|
            (if y == x { 0nat } else { running(y) }) == if #[trigger] active.remove(x).contains(y) {
                1nat
            } else {
                0nat
            },
{
}

/// Once the bridge for `x` has ended and `x` has been released, a listing that
/// names `x` starts exactly one new bridge for it.
pub proof fn lemma_rebridge(active: Set<Seq<char>>, x: Seq<char>, ids: Seq<Seq<char>>)
    requires
        ids.contains(x),
    ensures
        occurrences(newly_reserved(active.remove(x), ids), x) == 1,
{
    lemma_single_start(active.remove(x), ids, x);
}

} // verus!
