//! Server lifecycle: the shared running flag and the accept loop's decisions.
//!
//! The server owns a listening socket and one boolean flag, shared between
//! the accept loop and every connection task. The flag starts false, is set
//! on `run`, and is cleared on `stop`; it is the only cancellation signal,
//! observed at loop-iteration boundaries. Here the flag's protocol is a
//! verified state machine over a plain boolean; outside, the same protocol
//! runs over an atomic so that the accept loop and `stop` may race safely.
//!
//! `stop` is idempotent: the first call clears the flag and reports
//! [`StopOutcome::SignalSent`]; any later call changes nothing and reports
//! [`StopOutcome::AlreadyStopped`]. Once the flag is clear the accept loop
//! admits no new connection, while sessions already open keep their own
//! semantics: [`crate::handler::session_step`] takes no part of the server
//! state, so an in-flight request still receives its response.

use crate::handler::SessionEnd;
use vstd::prelude::*;

verus! {

/// What a call to `stop` observed and did.
#[derive(Debug, Clone, Copy, PartialEq, Eq, Structural)]
pub enum StopOutcome {
    /// The server was running; the flag is now cleared.
    SignalSent,
    /// The server was already stopped (or never started): a no-op.
    AlreadyStopped,
}

/// The server's lifecycle state: whether it is accepting connections.
#[derive(Debug, Clone, Copy, PartialEq, Eq, Structural)]
pub struct ServerState {
    pub running: bool,
}

/// The state after a call to `stop`: never running.
pub open spec fn stopped(s: ServerState) -> ServerState {
    ServerState { running: false }
}

/// What `stop` reports from a given state.
pub open spec fn stop_outcome(s: ServerState) -> StopOutcome {
    if s.running {
        StopOutcome::SignalSent
    } else {
        StopOutcome::AlreadyStopped
    }
}

impl ServerState {
    /// A newly bound server: not yet running.
    pub fn new() -> (s: Self)
        ensures
            !s.running,
    {
        ServerState { running: false }
    }

    /// Entering `run`: mark the server as accepting connections.
    pub fn start(&mut self)
        ensures
            final(self).running,
    {
        self.running = true;
    }

    /// Signal shutdown. Clears the flag if it is set; a second call is a
    /// no-op, observable through the returned outcome.
    pub fn stop(&mut self) -> (out: StopOutcome)
        ensures
            *final(self) == stopped(*old(self)),
            out == stop_outcome(*old(self)),
    {
        if self.running {
            self.running = false;
            StopOutcome::SignalSent
        } else {
            StopOutcome::AlreadyStopped
        }
    }

    /// The accept loop's guard: keep accepting exactly while the flag is set.
    pub fn should_accept(&self) -> (b: bool)
        ensures
            b == self.running,
    {
        self.running
    }
}

/// The outcome of one accept attempt on the non-blocking listener.
#[derive(Debug, Clone, Copy, PartialEq, Eq, Structural)]
pub enum AcceptEvent {
    /// A connection was accepted.
    Incoming,
    /// No connection is pending yet.
    NoPending,
    /// The accept call failed with any other error.
    Failed,
}

/// What the accept loop does with one accept outcome.
#[derive(Debug, Clone, Copy, PartialEq, Eq, Structural)]
pub enum AcceptAction {
    /// Hand the new socket to a fresh connection task.
    SpawnHandler,
    /// Sleep briefly, then try to accept again.
    SleepRetry,
    /// Log the error and keep accepting: no single failure stops the server.
    LogAndContinue,
}

/// The action owed to each accept outcome.
pub open spec fn accept_step_spec(ev: AcceptEvent) -> AcceptAction {
    match ev {
        AcceptEvent::Incoming => AcceptAction::SpawnHandler,
        AcceptEvent::NoPending => AcceptAction::SleepRetry,
        AcceptEvent::Failed => AcceptAction::LogAndContinue,
    }
}

/// Decide the accept loop's next action for one accept outcome.
pub fn accept_step(ev: AcceptEvent) -> (act: AcceptAction)
    ensures
        act == accept_step_spec(ev),
{
    match ev {
        AcceptEvent::Incoming => AcceptAction::SpawnHandler,
        AcceptEvent::NoPending => AcceptAction::SleepRetry,
        AcceptEvent::Failed => AcceptAction::LogAndContinue,
    }
}

/// A connection task's guard between sessions: run another session exactly
/// while the server is running and the last session did not fail.
pub fn keep_serving(running: bool, last: SessionEnd) -> (r: bool)
    ensures
        r == (running && !(last is Failed)),
{
    match last {
        SessionEnd::Failed(_) => false,
        _ => running,
    }
}

/// Stopping is idempotent: a second `stop` changes nothing and reports
/// [`StopOutcome::AlreadyStopped`].
pub proof fn lemma_stop_idempotent(s: ServerState)
    ensures
        stopped(stopped(s)) == stopped(s),
        stop_outcome(stopped(s)) == StopOutcome::AlreadyStopped,
{
}

/// After `stop`, the accept loop's guard is false, so no new connection is
/// accepted — whatever state the server was in before.
pub proof fn lemma_stop_halts_accepting(s: ServerState)
    ensures
        !stopped(s).running,
{
}

} // verus!
