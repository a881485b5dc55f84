use vstd::prelude::*;

verus! {

/// Milliseconds to wait after an announce before looking the broadcast up.
pub const SETTLE_MILLIS: u64 = 100;

/// The prefix of the namespace announced for a stream on the third-party network.
pub open spec fn namespace_prefix() -> Seq<char> {
    "earthseed.live/"@
}

/// The namespace announced for `stream_id`: the home domain, a slash, the identifier.
pub fn namespace_for(stream_id: &String) -> (r: String)
    ensures
        r@ == namespace_prefix() + stream_id@,
{
    let mut r = String::from_str("earthseed.live/");
    r.append(stream_id.as_str());
    r
}

/// How a bridge obtains its source broadcast.
#[derive(Clone, Copy, Debug, PartialEq, Eq, Structural)]
pub enum SourceStrategy {
    /// Announce the namespace on the live session, wait, then look it up.
    AnnounceFirst,
    /// Look the broadcast up by the stream identifier directly.
    Direct,
}

/// Why a bridge ended without its stream.
#[derive(Clone, Copy, Debug, PartialEq, Eq, Structural)]
pub enum BridgeError {
    /// No third-party session was live when the bridge began.
    SessionUnavailable,
    /// The announce on the third-party session failed.
    AnnounceFailed,
    /// The source broadcast could not be found.
    NotFound,
}

/// Where a bridge stands.
#[derive(Clone, Copy, Debug, PartialEq, Eq, Structural)]
pub enum TaskPhase {
    Start,
    Announcing,
    Settling,
    LookingUp,
    Streaming,
    Done,
}

/// What the outside world reports to a bridge.
#[derive(Clone, Copy, Debug, PartialEq, Eq, Structural)]
pub enum TaskEvent {
    /// The bridge is started; says whether a third-party session is live.
    Begin { session_present: bool },
    /// The announce returned, successfully or not.
    AnnounceDone { ok: bool },
    /// The settling delay has passed.
    SettleElapsed,
    /// The lookup of the source broadcast returned.
    LookupDone { found: bool },
    /// The source broadcast has ended.
    SourceClosed,
}

/// What a bridge asks the outside world to do next.
#[derive(Debug)]
pub enum TaskAction {
    /// Announce `namespace` on the live third-party session.
    Announce { namespace: String },
    /// Wait this many milliseconds.
    Settle { millis: u64 },
    /// Look up the source broadcast called `name`.
    Lookup { name: String },
    /// Publish the source broadcast on the home network under `path` and wait
    /// for it to close.
    Publish { path: String },
    /// The bridge is over, with this outcome.
    Finish { outcome: Result<(), BridgeError> },
    /// Nothing to do: the event does not apply in this phase.
    Nothing,
}

/// One bridge from the third-party network to the home network.
#[derive(Debug)]
pub struct BridgeTask {
    pub stream_id: String,
    pub namespace: String,
    pub strategy: SourceStrategy,
    pub phase: TaskPhase,
    /// Whether an announce has returned successfully.
    pub announced: bool,
}

/// A bridge that looks its source up only after a successful announce.
pub open spec fn task_inv(t: BridgeTask) -> bool {
    t.strategy == SourceStrategy::AnnounceFirst && (t.phase == TaskPhase::Settling || t.phase
        == TaskPhase::LookingUp || t.phase == TaskPhase::Streaming) ==> t.announced
}

/// The phase after `e`.
pub open spec fn next_phase(t: BridgeTask, e: TaskEvent) -> TaskPhase {
    match (t.phase, e) {
        (TaskPhase::Start, TaskEvent::Begin { session_present }) => {
            if t.strategy == SourceStrategy::Direct {
                TaskPhase::LookingUp
            } else if session_present {
                TaskPhase::Announcing
            } else {
                TaskPhase::Done
            }
        },
        (TaskPhase::Announcing, TaskEvent::AnnounceDone { ok }) => {
            if ok {
                TaskPhase::Settling
            } else {
                TaskPhase::Done
            }
        },
        (TaskPhase::Settling, TaskEvent::SettleElapsed) => TaskPhase::LookingUp,
        (TaskPhase::LookingUp, TaskEvent::LookupDone { found }) => {
            if found {
                TaskPhase::Streaming
            } else {
                TaskPhase::Done
            }
        },
        (TaskPhase::Streaming, TaskEvent::SourceClosed) => TaskPhase::Done,
        _ => t.phase,
    }
}

/// The bridge after `e`.
pub open spec fn next_task(t: BridgeTask, e: TaskEvent) -> BridgeTask {
    BridgeTask {
        phase: next_phase(t, e),
        announced: t.announced || (t.phase == TaskPhase::Announcing && e == (TaskEvent::AnnounceDone {
            ok: true,
        })),
        ..t
    }
}

/// What the bridge asks for on `e`.
pub open spec fn next_action(t: BridgeTask, e: TaskEvent) -> TaskAction {
    match (t.phase, e) {
        (TaskPhase::Start, TaskEvent::Begin { session_present }) => {
            if t.strategy == SourceStrategy::Direct {
                TaskAction::Lookup { name: t.stream_id }
            } else if session_present {
                TaskAction::Announce { namespace: t.namespace }
            } else {
                TaskAction::Finish { outcome: Err(BridgeError::SessionUnavailable) }
            }
        },
        (TaskPhase::Announcing, TaskEvent::AnnounceDone { ok }) => {
            if ok {
                TaskAction::Settle { millis: SETTLE_MILLIS }
            } else {
                TaskAction::Finish { outcome: Err(BridgeError::AnnounceFailed) }
            }
        },
        (TaskPhase::Settling, TaskEvent::SettleElapsed) => TaskAction::Lookup { name: t.namespace },
        (TaskPhase::LookingUp, TaskEvent::LookupDone { found }) => {
            if found {
                TaskAction::Publish { path: t.stream_id }
            } else {
                TaskAction::Finish { outcome: Err(BridgeError::NotFound) }
            }
        },
        (TaskPhase::Streaming, TaskEvent::SourceClosed) => TaskAction::Finish { outcome: Ok(()) },
        _ => TaskAction::Nothing,
    }
}

/// The actions a bridge asks for over a sequence of events.
pub open spec fn run_actions(t: BridgeTask, events: Seq<TaskEvent>) -> Seq<TaskAction>
    decreases events.len(),
{
    if events.len() == 0 {
        Seq::empty()
    } else {
        seq![next_action(t, events[0])] + run_actions(next_task(t, events[0]), events.skip(1))
    }
}

impl BridgeTask {
    /// A bridge for `stream_id`, not started yet.
    pub fn new(stream_id: String, strategy: SourceStrategy) -> (r: BridgeTask)
        ensures
            r.stream_id == stream_id,
            r.namespace@ == namespace_prefix() + stream_id@,
            r.strategy == strategy,
            r.phase == TaskPhase::Start,
            !r.announced,
            task_inv(r),
    {
        let namespace = namespace_for(&stream_id);
        BridgeTask { stream_id, namespace, strategy, phase: TaskPhase::Start, announced: false }
    }

    /// Whether the bridge is over.
    pub fn is_done(&self) -> (r: bool)
        ensures
            r == (self.phase == TaskPhase::Done),
    {
        self.phase == TaskPhase::Done
    }

    /// Takes in `event` and says what to do next.
    pub fn step(&mut self, event: TaskEvent) -> (r: TaskAction)
        ensures
            r == next_action(*old(self), event),
            *final(self) == next_task(*old(self), event),
            task_inv(*old(self)) ==> task_inv(*final(self)),
    {
        match (self.phase, event) {
            (TaskPhase::Start, TaskEvent::Begin { session_present }) => {
                if self.strategy == SourceStrategy::Direct {
                    self.phase = TaskPhase::LookingUp;
                    TaskAction::Lookup { name: self.stream_id.clone() }
                } else if session_present {
                    self.phase = TaskPhase::Announcing;
                    TaskAction::Announce { namespace: self.namespace.clone() }
                } else {
                    self.phase = TaskPhase::Done;
                    TaskAction::Finish { outcome: Err(BridgeError::SessionUnavailable) }
                }
            },
            (TaskPhase::Announcing, TaskEvent::AnnounceDone { ok }) => {
                if ok {
                    self.phase = TaskPhase::Settling;
                    self.announced = true;
                    TaskAction::Settle { millis: SETTLE_MILLIS }
                } else {
                    self.phase = TaskPhase::Done;
                    TaskAction::Finish { outcome: Err(BridgeError::AnnounceFailed) }
                }
            },
            (TaskPhase::Settling, TaskEvent::SettleElapsed) => {
                self.phase = TaskPhase::LookingUp;
                TaskAction::Lookup { name: self.namespace.clone() }
            },
            (TaskPhase::LookingUp, TaskEvent::LookupDone { found }) => {
                if found {
                    self.phase = TaskPhase::Streaming;
                    TaskAction::Publish { path: self.stream_id.clone() }
                } else {
                    self.phase = TaskPhase::Done;
                    TaskAction::Finish { outcome: Err(BridgeError::NotFound) }
                }
            },
            (TaskPhase::Streaming, TaskEvent::SourceClosed) => {
                self.phase = TaskPhase::Done;
                TaskAction::Finish { outcome: Ok(()) }
            },
            _ => TaskAction::Nothing,
        }
    }
}

/// A bridge asks for one action per event.
pub proof fn lemma_run_len(t: BridgeTask, events: Seq<TaskEvent>)
    ensures
        run_actions(t, events).len() == events.len(),
    decreases events.len(),
{
    if events.len() > 0 {
        lemma_run_len(next_task(t, events[0]), events.skip(1));
    }
}

/// A bridge that is over asks for nothing more, whatever it is told.
pub proof fn lemma_done_is_inert(t: BridgeTask, events: Seq<TaskEvent>)
    requires
        t.phase == TaskPhase::Done,
    ensures
        forall|k: int| 0 <= k < events.len() ==> run_actions(t, events)[k] == TaskAction::Nothing,
    decreases events.len(),
{
    lemma_run_len(t, events);
    if events.len() > 0 {
        let rest = events.skip(1);
        lemma_done_is_inert(next_task(t, events[0]), rest);
        assert forall|k: int| 0 <= k < events.len() implies run_actions(t, events)[k]
            == TaskAction::Nothing by {
            if k > 0 {
                assert(run_actions(t, events)[k] == run_actions(next_task(t, events[0]), rest)[k - 1]);
            }
        }
    }
}

/// A bridge that announces first never looks its source up until an announce
/// has returned successfully: over any events among which no announce
/// succeeds, none of the actions it asks for is a lookup.
pub proof fn lemma_no_lookup_before_announce(t: BridgeTask, events: Seq<TaskEvent>)
    requires
        task_inv(t),
        t.strategy == SourceStrategy::AnnounceFirst,
        !t.announced,
        forall|j: int| 0 <= j < events.len() ==> events[j] != (TaskEvent::AnnounceDone { ok: true }),
    ensures
        forall|k: int| 0 <= k < events.len() ==> !(run_actions(t, events)[k] is Lookup),
    decreases events.len(),
{
    lemma_run_len(t, events);
    if events.len() > 0 {
        let rest = events.skip(1);
        let next = next_task(t, events[0]);
        assert forall|j: int| 0 <= j < rest.len() implies rest[j] != (TaskEvent::AnnounceDone {
            ok: true,
        }) by {
            assert(rest[j] == events[j + 1]);
        }
        lemma_no_lookup_before_announce(next, rest);
        assert forall|k: int| 0 <= k < events.len() implies !(run_actions(t, events)[k] is Lookup) by {
            if k > 0 {
                assert(run_actions(t, events)[k] == run_actions(next, rest)[k - 1]);
            }
        }
    }
}

/// A bridge that announces first and finds no live session ends at once with
/// `SessionUnavailable`, and asks for nothing after, so never for a lookup.
pub proof fn lemma_absent_session_short_circuits(t: BridgeTask, events: Seq<TaskEvent>)
    requires
        t.phase == TaskPhase::Start,
        t.strategy == SourceStrategy::AnnounceFirst,
        events.len() > 0,
        events[0] == (TaskEvent::Begin { session_present: false }),
    ensures
        run_actions(t, events)[0] == (TaskAction::Finish { outcome: Err(BridgeError::SessionUnavailable) }),
        forall|k: int| 1 <= k < events.len() ==> run_actions(t, events)[k] == TaskAction::Nothing,
{
    let rest = events.skip(1);
    let next = next_task(t, events[0]);
    lemma_run_len(t, events);
    lemma_done_is_inert(next, rest);
    assert forall|k: int| 1 <= k < events.len() implies run_actions(t, events)[k]
        == TaskAction::Nothing by {
        assert(run_actions(t, events)[k] == run_actions(next, rest)[k - 1]);
    }
}

/// A bridge that announces first, started while a session is live, publishes
/// its source under the stream identifier and ends successfully once the
/// announce succeeds, the source is found and later closes.
pub proof fn lemma_bridge_succeeds_with_live_session(t: BridgeTask)
    requires
        t.phase == TaskPhase::Start,
        t.strategy == SourceStrategy::AnnounceFirst,
    ensures
        ({
            let events = seq![
                TaskEvent::Begin { session_present: true },
                TaskEvent::AnnounceDone { ok: true },
                TaskEvent::SettleElapsed,
                TaskEvent::LookupDone { found: true },
                TaskEvent::SourceClosed,
            ];
            run_actions(t, events) == seq![
                TaskAction::Announce { namespace: t.namespace },
                TaskAction::Settle { millis: SETTLE_MILLIS },
                TaskAction::Lookup { name: t.namespace },
                TaskAction::Publish { path: t.stream_id },
                TaskAction::Finish { outcome: Ok(()) },
            ]
        }),
{
    let events = seq![
        TaskEvent::Begin { session_present: true },
        TaskEvent::AnnounceDone { ok: true },
        TaskEvent::SettleElapsed,
        TaskEvent::LookupDone { found: true },
        TaskEvent::SourceClosed,
    ];
    let t1 = next_task(t, events[0]);
    let t2 = next_task(t1, events[1]);
    let t3 = next_task(t2, events[2]);
    let t4 = next_task(t3, events[3]);
    let t5 = next_task(t4, events[4]);
    let e1 = events.skip(1);
    let e2 = e1.skip(1);
    let e3 = e2.skip(1);
    let e4 = e3.skip(1);
    let e5 = e4.skip(1);
    assert(e1[0] == events[1] && e2[0] == events[2] && e3[0] == events[3] && e4[0] == events[4]);
    assert(e5.len() == 0);
    assert(run_actions(t5, e5) == Seq::<TaskAction>::empty());
    assert(run_actions(t4, e4) =~= seq![TaskAction::Finish { outcome: Ok(()) }]);
    assert(run_actions(t3, e3) =~= seq![
        TaskAction::Publish { path: t.stream_id },
        TaskAction::Finish { outcome: Ok(()) },
    ]);
    assert(run_actions(t2, e2) =~= seq![
        TaskAction::Lookup { name: t.namespace },
        TaskAction::Publish { path: t.stream_id },
        TaskAction::Finish { outcome: Ok(()) },
    ]);
    assert(run_actions(t1, e1) =~= seq![
        TaskAction::Settle { millis: SETTLE_MILLIS },
        TaskAction::Lookup { name: t.namespace },
        TaskAction::Publish { path: t.stream_id },
        TaskAction::Finish { outcome: Ok(()) },
    ]);
    assert(run_actions(t, events) =~= seq![
        TaskAction::Announce { namespace: t.namespace },
        TaskAction::Settle { millis: SETTLE_MILLIS },
        TaskAction::Lookup { name: t.namespace },
        TaskAction::Publish { path: t.stream_id },
        TaskAction::Finish { outcome: Ok(()) },
    ]);
}

} // verus!
