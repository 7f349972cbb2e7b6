use vstd::prelude::*;

verus! {

/// Where a viewer session stands.
#[derive(PartialEq, Eq, Structural, Clone, Copy, Debug)]
pub enum SessionState {
    Registered,
    Streaming,
    Deregistered,
}

/// What happened to a viewer session.
#[derive(PartialEq, Eq, Structural, Clone, Copy, Debug)]
pub enum SessionEvent {
    /// The viewer's queue yielded a packet.
    PacketReady,
    /// Writing to the viewer's connection failed.
    SendFailed,
    /// The connection was closed.
    Closed,
}

/// What the session task does in response.
#[derive(PartialEq, Eq, Structural, Clone, Copy, Debug)]
pub enum SessionAction {
    /// Send the packet to the viewer.
    Forward,
    /// Take the viewer off the bus, which lowers the demand.
    Deregister,
    /// Nothing: the session is over.
    Idle,
}

pub open spec fn session_step(s: SessionState, e: SessionEvent) -> (SessionState, SessionAction) {
    match s {
        SessionState::Deregistered => (SessionState::Deregistered, SessionAction::Idle),
        _ => match e {
            SessionEvent::PacketReady => (SessionState::Streaming, SessionAction::Forward),
            _ => (SessionState::Deregistered, SessionAction::Deregister),
        },
    }
}

/// The state after the events `es`, starting from `s`.
pub open spec fn run_session(s: SessionState, es: Seq<SessionEvent>) -> SessionState
    decreases es.len(),
{
    if es.len() == 0 {
        s
    } else {
        session_step(run_session(s, es.drop_last()), es.last()).0
    }
}

/// How many times the session asked to be deregistered.
pub open spec fn deregister_count(s: SessionState, es: Seq<SessionEvent>) -> nat
    decreases es.len(),
{
    if es.len() == 0 {
        0
    } else {
        deregister_count(s, es.drop_last()) + if session_step(
            run_session(s, es.drop_last()),
            es.last(),
        ).1 == SessionAction::Deregister {
            1nat
        } else {
            0nat
        }
    }
}

/// Whether any of the events ends the connection.
pub open spec fn ends_connection(es: Seq<SessionEvent>) -> bool {
    exists|i: int| 0 <= i < es.len() && #[trigger] es[i] != SessionEvent::PacketReady
}

/// The life of one viewer connection: registered, then streaming, then
/// deregistered for good.
pub struct ViewerSession {
    state: SessionState,
}

impl ViewerSession {
    pub closed spec fn current(&self) -> SessionState {
        self.state
    }

    pub fn new() -> (r: ViewerSession)
        ensures
            r.current() == SessionState::Registered,
    {
        ViewerSession { state: SessionState::Registered }
    }

    pub fn state(&self) -> (r: SessionState)
        ensures
            r == self.current(),
    {
        self.state
    }

    /// Moves the session on by one event and says what to do.
    pub fn on_event(&mut self, e: SessionEvent) -> (r: SessionAction)
        ensures
            (final(self).current(), r) == session_step(old(self).current(), e),
    {
        match self.state {
            SessionState::Deregistered => SessionAction::Idle,
            _ => match e {
                SessionEvent::PacketReady => {
                    self.state = SessionState::Streaming;
                    SessionAction::Forward
                },
                _ => {
                    self.state = SessionState::Deregistered;
                    SessionAction::Deregister
                },
            },
        }
    }
}

/// Over any sequence of events, a session asks to be deregistered once if
/// its connection ended, whether by a failed send or by a close, and never
/// otherwise; it is deregistered at the end exactly in that case.
pub proof fn lemma_deregister_exactly_once(es: Seq<SessionEvent>)
    ensures
        deregister_count(SessionState::Registered, es) == if ends_connection(es) {
            1nat
        } else {
            0nat
        },
        (run_session(SessionState::Registered, es) == SessionState::Deregistered) == ends_connection(
            es,
        ),
    decreases es.len(),
{
    if es.len() > 0 {
        let init = es.drop_last();
        lemma_deregister_exactly_once(init);
        if ends_connection(init) {
            let i = choose|i: int| 0 <= i < init.len() && #[trigger] init[i] != SessionEvent::PacketReady;
            assert(es[i] == init[i]);
        }
        if ends_connection(es) && !ends_connection(init) {
            let i = choose|i: int| 0 <= i < es.len() && #[trigger] es[i] != SessionEvent::PacketReady;
            if i < init.len() {
                assert(init[i] == es[i]);
            }
        }
        if es.last() != SessionEvent::PacketReady {
            assert(es[es.len() - 1] != SessionEvent::PacketReady);
        }
    }
}

} // verus!
