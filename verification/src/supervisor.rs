//! The connection supervisor's state machine.
//!
//! The supervisor owns the socket lifetime: it dials, hands a successful
//! connection to one reader task and one writer task, waits for either to
//! finish, sleeps a fixed delay, and retries — unconditionally and without
//! limit, so there is no terminal state.  The surrounding process performs
//! the actions (dial, spawn and wait, sleep) and feeds the outcomes back in
//! as events; [`supervisor_step`] decides every transition.

use vstd::prelude::*;

verus! {

/// Where the supervisor stands in one reconnect cycle.
#[derive(Clone, Copy, Debug, PartialEq, Eq, Structural)]
pub enum SupervisorState {
    /// No connection attempt is active.
    Disconnected,
    /// A dial to the remote address is in flight.
    Connecting,
    /// A connection is live: one reader task and one writer task run on it.
    Connected,
}

/// What the surrounding process reports back to the supervisor.
#[derive(Clone, Copy, Debug, PartialEq, Eq, Structural)]
pub enum SupervisorEvent {
    /// Any retry delay has elapsed; the supervisor may dial.
    ReadyToConnect,
    /// The dial succeeded.
    DialSucceeded,
    /// The dial failed.
    DialFailed,
    /// The reader or the writer task finished, ending the connection
    /// attempt; the sibling task is abandoned, not cancelled.
    ConnectionEnded,
}

/// What the surrounding process must do next.
#[derive(Clone, Copy, Debug, PartialEq, Eq, Structural)]
pub enum SupervisorAction {
    /// Dial the remote address.
    Dial,
    /// Split the transport, spawn the reader and writer tasks, and wait for
    /// whichever finishes first.
    RunConnection,
    /// Sleep the fixed retry delay, then report `ReadyToConnect`.
    SleepBeforeRetry,
}

/// Which events can arrive in which state.
pub open spec fn event_fits(state: SupervisorState, event: SupervisorEvent) -> bool {
    match state {
        SupervisorState::Disconnected => event is ReadyToConnect,
        SupervisorState::Connecting => event is DialSucceeded || event is DialFailed,
        SupervisorState::Connected => event is ConnectionEnded,
    }
}

/// Runtime test of [`event_fits`], for callers outside verified code that
/// must check the precondition of [`supervisor_step`] before calling it.
pub fn event_permitted(state: SupervisorState, event: SupervisorEvent) -> (b: bool)
    ensures
        b == event_fits(state, event),
{
    match state {
        SupervisorState::Disconnected => matches!(event, SupervisorEvent::ReadyToConnect),
        SupervisorState::Connecting => matches!(
            event,
            SupervisorEvent::DialSucceeded | SupervisorEvent::DialFailed
        ),
        SupervisorState::Connected => matches!(event, SupervisorEvent::ConnectionEnded),
    }
}

/// The transition table: dial when ready; on dial success run the tasks; on
/// dial failure or on the end of a connection fall back to disconnected and
/// sleep before the next attempt.
pub open spec fn spec_supervisor_step(state: SupervisorState, event: SupervisorEvent) -> (
    SupervisorState,
    SupervisorAction,
) {
    match state {
        SupervisorState::Disconnected => (SupervisorState::Connecting, SupervisorAction::Dial),
        SupervisorState::Connecting => if event is DialSucceeded {
            (SupervisorState::Connected, SupervisorAction::RunConnection)
        } else {
            (SupervisorState::Disconnected, SupervisorAction::SleepBeforeRetry)
        },
        SupervisorState::Connected => (
            SupervisorState::Disconnected,
            SupervisorAction::SleepBeforeRetry,
        ),
    }
}

/// One transition of the supervisor.
pub fn supervisor_step(state: SupervisorState, event: SupervisorEvent) -> (r: (
    SupervisorState,
    SupervisorAction,
))
    requires
        event_fits(state, event),
    ensures
        r == spec_supervisor_step(state, event),
{
    match state {
        SupervisorState::Disconnected => (SupervisorState::Connecting, SupervisorAction::Dial),
        SupervisorState::Connecting => match event {
            SupervisorEvent::DialSucceeded => (
                SupervisorState::Connected,
                SupervisorAction::RunConnection,
            ),
            _ => (SupervisorState::Disconnected, SupervisorAction::SleepBeforeRetry),
        },
        SupervisorState::Connected => (
            SupervisorState::Disconnected,
            SupervisorAction::SleepBeforeRetry,
        ),
    }
}

/// The supervisor loops indefinitely: after every permitted event the new
/// state again permits an event, so no sequence of transitions reaches a
/// halt.  In particular every fall back to `Disconnected` is followed by a
/// new dial attempt once the retry delay elapses.
pub proof fn lemma_supervisor_never_halts(state: SupervisorState, event: SupervisorEvent)
    requires
        event_fits(state, event),
    ensures
        exists|e: SupervisorEvent| #[trigger] event_fits(spec_supervisor_step(state, event).0, e),
{
    let next = spec_supervisor_step(state, event).0;
    match next {
        SupervisorState::Disconnected => {
            assert(event_fits(next, SupervisorEvent::ReadyToConnect));
        },
        SupervisorState::Connecting => {
            assert(event_fits(next, SupervisorEvent::DialSucceeded));
        },
        SupervisorState::Connected => {
            assert(event_fits(next, SupervisorEvent::ConnectionEnded));
        },
    }
}

} // verus!
