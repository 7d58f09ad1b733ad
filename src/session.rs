//! The per-connection tarpit loop as a state machine: wait the delay, write
//! the banner, flush, and again, until an I/O failure ends the session. The
//! caller performs each action and reports what came of it.
use vstd::prelude::*;
use crate::metrics::{
    after_disconnect, after_event, disconnect_result, ClientError, Event, Metrics, Token,
};

verus! {

/// The fixed payload written at each tick.
pub const BANNER: &'static str = "bleep bloop\r\n";

#[derive(Clone, Copy, Debug, PartialEq, Eq)]
pub enum SessionState {
    /// Admitted, the loop has not begun.
    Connecting,
    /// Sleeping for the delay.
    Waiting,
    /// Writing the banner.
    Writing,
    /// Flushing the write.
    Flushing,
    /// Ended by a failure; the connection has been closed in the registry.
    Terminated,
}

/// What the caller reports after performing an action.
#[derive(Clone, Copy, Debug, PartialEq, Eq)]
pub enum SessionEvent {
    /// The connection was admitted and set up.
    Accepted,
    /// The delay has passed.
    DelayElapsed,
    /// The banner was written in full.
    Written,
    /// The write was flushed.
    Flushed,
    /// The timer, the write or the flush failed.
    Failed,
}

/// What the caller must do next.
#[derive(Clone, Copy, Debug, PartialEq, Eq)]
pub enum SessionAction {
    /// Sleep this many seconds.
    Sleep(u64),
    /// Write the banner.
    Write,
    /// Flush the socket.
    Flush,
    /// Release the socket; the registry's answer to closing the connection
    /// is given for the log.
    Close(Result<(usize, u64), ClientError>),
}

/// The events that a session in state `s` can receive.
pub open spec fn expects(s: SessionState, e: SessionEvent) -> bool {
    match s {
        SessionState::Connecting => e is Accepted,
        SessionState::Waiting => e is DelayElapsed || e is Failed,
        SessionState::Writing => e is Written || e is Failed,
        SessionState::Flushing => e is Flushed || e is Failed,
        SessionState::Terminated => false,
    }
}

/// The state that event `e` leads to.
pub open spec fn next_state(e: SessionEvent) -> SessionState {
    match e {
        SessionEvent::Accepted => SessionState::Waiting,
        SessionEvent::DelayElapsed => SessionState::Writing,
        SessionEvent::Written => SessionState::Flushing,
        SessionEvent::Flushed => SessionState::Waiting,
        SessionEvent::Failed => SessionState::Terminated,
    }
}

/// One admitted connection being tarpitted.
pub struct Session {
    pub token: Token,
    pub delay_seconds: u64,
    pub state: SessionState,
}

impl Session {
    /// A session for the connection of `token` that sends one banner every
    /// `delay_seconds` seconds.
    pub fn new(token: Token, delay_seconds: u64) -> (r: Session)
        ensures
            r.token == token,
            r.delay_seconds == delay_seconds,
            r.state == SessionState::Connecting,
    {
        Session { token, delay_seconds, state: SessionState::Connecting }
    }

    /// Whether the session can receive `event` now.
    pub fn expects(&self, event: SessionEvent) -> (r: bool)
        ensures
            r == expects(self.state, event),
    {
        match self.state {
            SessionState::Connecting => matches!(event, SessionEvent::Accepted),
            SessionState::Waiting => matches!(event, SessionEvent::DelayElapsed | SessionEvent::Failed),
            SessionState::Writing => matches!(event, SessionEvent::Written | SessionEvent::Failed),
            SessionState::Flushing => matches!(event, SessionEvent::Flushed | SessionEvent::Failed),
            SessionState::Terminated => false,
        }
    }

    /// Takes `event` at `now` (milliseconds) and returns the next action. A
    /// completed flush counts one chunk and one banner for the connection; a
    /// failure closes the connection in the registry and ends the session.
    pub fn step(&mut self, metrics: &mut Metrics, event: SessionEvent, now: u64) -> (r:
        SessionAction)
        requires
            old(metrics).wf(),
            expects(old(self).state, event),
        ensures
            final(metrics).wf(),
            final(self).token == old(self).token,
            final(self).delay_seconds == old(self).delay_seconds,
            final(self).state == next_state(event),
            r == match event {
                SessionEvent::Accepted => SessionAction::Sleep(old(self).delay_seconds),
                SessionEvent::DelayElapsed => SessionAction::Write,
                SessionEvent::Written => SessionAction::Flush,
                SessionEvent::Flushed => SessionAction::Sleep(old(self).delay_seconds),
                SessionEvent::Failed => SessionAction::Close(
                    disconnect_result(old(metrics)@, old(self).token.uid, now),
                ),
            },
            final(metrics)@ == match event {
                SessionEvent::Flushed => after_event(
                    after_event(old(metrics)@, old(self).token.uid, Event::Chunk),
                    old(self).token.uid,
                    Event::Banner,
                ),
                SessionEvent::Failed => after_disconnect(old(metrics)@, old(self).token.uid, now),
                _ => old(metrics)@,
            },
    {
        match event {
            SessionEvent::Accepted => {
                self.state = SessionState::Waiting;
                SessionAction::Sleep(self.delay_seconds)
            },
            SessionEvent::DelayElapsed => {
                self.state = SessionState::Writing;
                SessionAction::Write
            },
            SessionEvent::Written => {
                self.state = SessionState::Flushing;
                SessionAction::Flush
            },
            SessionEvent::Flushed => {
                let _ = metrics.sent_chunk(&self.token);
                let _ = metrics.sent_banner(&self.token);
                self.state = SessionState::Waiting;
                SessionAction::Sleep(self.delay_seconds)
            },
            SessionEvent::Failed => {
                let r = metrics.disconnect(self.token, now);
                self.state = SessionState::Terminated;
                SessionAction::Close(r)
            },
        }
    }
}

/// `states` is the run of a session from its start under `events`: each event
/// is one that the state before it expects, and leads to the state after it.
pub open spec fn is_run(states: Seq<SessionState>, events: Seq<SessionEvent>) -> bool {
    &&& states.len() == events.len() + 1
    &&& states[0] == SessionState::Connecting
    &&& forall|k: int|
        0 <= k < events.len() ==> expects(states[k], #[trigger] events[k]) && states[k + 1]
            == next_state(events[k])
}

/// In every run a banner is written only right after a full delay has passed:
/// each write follows a wait that ended with the delay elapsing, the first
/// write comes after the wait that began the session, and a session that has
/// ended takes no further event.
pub proof fn lemma_write_follows_wait(states: Seq<SessionState>, events: Seq<SessionEvent>)
    requires
        is_run(states, events),
    ensures
        forall|k: int|
            0 <= k < events.len() && #[trigger] states[k + 1] == SessionState::Writing ==> {
                &&& k >= 1
                &&& states[k] == SessionState::Waiting
                &&& events[k] == SessionEvent::DelayElapsed
            },
        forall|k: int| 0 <= k < states.len() && #[trigger] states[k] == SessionState::Terminated ==> k == events.len(),
{
    assert forall|k: int|
        0 <= k < events.len() && #[trigger] states[k + 1] == SessionState::Writing implies {
        &&& k >= 1
        &&& states[k] == SessionState::Waiting
        &&& events[k] == SessionEvent::DelayElapsed
    } by {
        let e = events[k];
        assert(expects(states[k], e));
    }
    assert forall|k: int| 0 <= k < states.len() && #[trigger] states[k] == SessionState::Terminated implies k
        == events.len() by {
        if k < events.len() {
            let e = events[k];
            assert(expects(states[k], e));
        }
    }
}

} // verus!
