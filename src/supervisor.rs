use vstd::prelude::*;

verus! {

/// Milliseconds a supervisor waits after a failure or a closure before it
/// connects again.
pub const BACKOFF_MILLIS: u64 = 5000;

/// Which network a supervisor keeps a session to.
#[derive(Clone, Copy, Debug, PartialEq, Eq, Structural)]
pub enum LinkRole {
    /// The home network: bridged streams are published into it, nothing is
    /// taken from it.
    Home,
    /// The third-party network: streams are taken from it, nothing is
    /// published into it, and its session is shared with the bridges.
    ThirdParty,
}

/// Where a supervisor stands.
#[derive(Clone, Copy, Debug, PartialEq, Eq, Structural)]
pub enum LinkPhase {
    Idle,
    Connecting,
    Connected,
    BackingOff,
}

/// What the outside world reports to a supervisor.
#[derive(Clone, Copy, Debug, PartialEq, Eq, Structural)]
pub enum LinkEvent {
    /// The supervisor is started.
    Start,
    /// The connection attempt gave a session.
    ConnectOk,
    /// The connection attempt failed.
    ConnectFailed,
    /// The session was closed.
    Closed,
    /// The back-off delay has passed.
    BackoffElapsed,
}

/// What a supervisor asks the outside world to do next.
#[derive(Clone, Copy, Debug, PartialEq, Eq, Structural)]
pub enum LinkAction {
    /// Connect, offering the bridged streams if `publish`, taking streams in
    /// if `subscribe`.
    Connect { publish: bool, subscribe: bool },
    /// Wait until the session closes; first store it where the bridges find it
    /// if `share_session`.
    AwaitClosed { share_session: bool },
    /// Wait `millis` milliseconds; first clear the shared session if
    /// `clear_session`.
    Backoff { millis: u64, clear_session: bool },
    /// Nothing to do: the event does not apply in this phase.
    Nothing,
}

/// The reconnect loop of one network's session.
#[derive(Clone, Copy, Debug)]
pub struct Supervisor {
    pub role: LinkRole,
    pub phase: LinkPhase,
}

/// The phase after `e`.
pub open spec fn link_next_phase(s: Supervisor, e: LinkEvent) -> LinkPhase {
    match (s.phase, e) {
        (LinkPhase::Idle, LinkEvent::Start) => LinkPhase::Connecting,
        (LinkPhase::Connecting, LinkEvent::ConnectOk) => LinkPhase::Connected,
        (LinkPhase::Connecting, LinkEvent::ConnectFailed) => LinkPhase::BackingOff,
        (LinkPhase::Connected, LinkEvent::Closed) => LinkPhase::BackingOff,
        (LinkPhase::BackingOff, LinkEvent::BackoffElapsed) => LinkPhase::Connecting,
        _ => s.phase,
    }
}

/// The connect action of a role.
pub open spec fn connect_action(role: LinkRole) -> LinkAction {
    LinkAction::Connect { publish: role == LinkRole::Home, subscribe: role == LinkRole::ThirdParty }
}

/// What the supervisor asks for on `e`.
pub open spec fn link_next_action(s: Supervisor, e: LinkEvent) -> LinkAction {
    let shares = s.role == LinkRole::ThirdParty;
    match (s.phase, e) {
        (LinkPhase::Idle, LinkEvent::Start) => connect_action(s.role),
        (LinkPhase::Connecting, LinkEvent::ConnectOk) => LinkAction::AwaitClosed {
            share_session: shares,
        },
        (LinkPhase::Connecting, LinkEvent::ConnectFailed) => LinkAction::Backoff {
            millis: BACKOFF_MILLIS,
            clear_session: false,
        },
        (LinkPhase::Connected, LinkEvent::Closed) => LinkAction::Backoff {
            millis: BACKOFF_MILLIS,
            clear_session: shares,
        },
        (LinkPhase::BackingOff, LinkEvent::BackoffElapsed) => connect_action(s.role),
        _ => LinkAction::Nothing,
    }
}

impl Supervisor {
    /// A supervisor for `role`, not started yet.
    pub fn new(role: LinkRole) -> (r: Supervisor)
        ensures
            r.role == role,
            r.phase == LinkPhase::Idle,
    {
        Supervisor { role, phase: LinkPhase::Idle }
    }

    /// Takes in `event` and says what to do next.
    pub fn step(&mut self, event: LinkEvent) -> (r: LinkAction)
        ensures
            r == link_next_action(*old(self), event),
            final(self).role == old(self).role,
            final(self).phase == link_next_phase(*old(self), event),
    {
        let shares = self.role == LinkRole::ThirdParty;
        match (self.phase, event) {
            (LinkPhase::Idle, LinkEvent::Start) => {
                self.phase = LinkPhase::Connecting;
                self.connect()
            },
            (LinkPhase::Connecting, LinkEvent::ConnectOk) => {
                self.phase = LinkPhase::Connected;
                LinkAction::AwaitClosed { share_session: shares }
            },
            (LinkPhase::Connecting, LinkEvent::ConnectFailed) => {
                self.phase = LinkPhase::BackingOff;
                LinkAction::Backoff { millis: BACKOFF_MILLIS, clear_session: false }
            },
            (LinkPhase::Connected, LinkEvent::Closed) => {
                self.phase = LinkPhase::BackingOff;
                LinkAction::Backoff { millis: BACKOFF_MILLIS, clear_session: shares }
            },
            (LinkPhase::BackingOff, LinkEvent::BackoffElapsed) => {
                self.phase = LinkPhase::Connecting;
                self.connect()
            },
            _ => LinkAction::Nothing,
        }
    }

    fn connect(&self) -> (r: LinkAction)
        ensures
            r == connect_action(self.role),
    {
        LinkAction::Connect {
            publish: self.role == LinkRole::Home,
            subscribe: self.role == LinkRole::ThirdParty,
        }
    }
}

/// After a session closes, the supervisor waits one back-off interval, clears
/// the shared session if it shares one, connects again, and on success shares
/// the new session again.
pub proof fn lemma_reconnect_after_close(s: Supervisor)
    requires
        s.phase == LinkPhase::Connected,
    ensures
        ({
            let shares = s.role == LinkRole::ThirdParty;
            let s1 = Supervisor { phase: link_next_phase(s, LinkEvent::Closed), ..s };
            let s2 = Supervisor { phase: link_next_phase(s1, LinkEvent::BackoffElapsed), ..s1 };
            &&& link_next_action(s, LinkEvent::Closed) == (LinkAction::Backoff {
                millis: BACKOFF_MILLIS,
                clear_session: shares,
            })
            &&& link_next_action(s1, LinkEvent::BackoffElapsed) == connect_action(s.role)
            &&& link_next_action(s2, LinkEvent::ConnectOk) == (LinkAction::AwaitClosed {
                share_session: shares,
            })
            &&& link_next_phase(s2, LinkEvent::ConnectOk) == LinkPhase::Connected
        }),
{
}

/// A failed attempt is retried after one back-off interval.
pub proof fn lemma_retry_after_failure(s: Supervisor)
    requires
        s.phase == LinkPhase::Connecting,
    ensures
        ({
            let s1 = Supervisor { phase: link_next_phase(s, LinkEvent::ConnectFailed), ..s };
            &&& link_next_action(s, LinkEvent::ConnectFailed) == (LinkAction::Backoff {
                millis: BACKOFF_MILLIS,
                clear_session: false,
            })
            &&& link_next_action(s1, LinkEvent::BackoffElapsed) == connect_action(s.role)
        }),
{
}

} // verus!
