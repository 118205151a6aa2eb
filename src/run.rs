//! A single blocking operation on a connection checked out for it.
//!
//! The connection is checked out first; if that fails the operation never
//! runs and the caller receives that error. Otherwise the operation runs once,
//! where blocking is safe, and its own outcome goes back to the caller as it
//! is.
use vstd::prelude::*;

verus! {

/// Where a single operation stands.
#[derive(Debug, Clone, Copy, PartialEq, Eq)]
pub enum RunPhase {
    /// Waiting for a connection to be checked out.
    Acquiring,
    /// Waiting for the operation to finish.
    Running,
    /// The outcome has been handed out.
    Done,
}

/// What came back from the work that the previous action asked for.
/// Errors of the connection layer arrive already converted into `E`.
#[derive(Debug, PartialEq, Eq)]
pub enum RunEvent<R, E> {
    ConnectionAcquired(Result<(), E>),
    OperationFinished(Result<R, E>),
}

/// What the driver must do next.
#[derive(Debug, PartialEq, Eq)]
pub enum RunAction<R, E> {
    AcquireConnection,
    RunOperation,
    /// Hand this outcome to the caller.
    Finish(Result<R, E>),
}

/// The event that answers the blocking work of `phase`.
pub open spec fn run_answers<R, E>(phase: RunPhase, ev: RunEvent<R, E>) -> bool {
    match (phase, ev) {
        (RunPhase::Acquiring, RunEvent::ConnectionAcquired(_)) => true,
        (RunPhase::Running, RunEvent::OperationFinished(_)) => true,
        _ => false,
    }
}

/// The transition table of a single operation.
pub open spec fn run_next<R, E>(phase: RunPhase, ev: RunEvent<R, E>) -> (RunPhase, RunAction<R, E>) {
    match ev {
        RunEvent::ConnectionAcquired(Ok(())) => (RunPhase::Running, RunAction::RunOperation),
        RunEvent::ConnectionAcquired(Err(e)) => (RunPhase::Done, RunAction::Finish(Err(e))),
        RunEvent::OperationFinished(o) => (RunPhase::Done, RunAction::Finish(o)),
    }
}

impl RunPhase {
    /// The phase of an operation that has not started, and the first action.
    pub fn start<R, E>() -> (r: (RunPhase, RunAction<R, E>))
        ensures
            r.0 is Acquiring,
            r.1 is AcquireConnection,
    {
        (RunPhase::Acquiring, RunAction::AcquireConnection)
    }

    /// Whether `ev` answers the work this phase waits for.
    pub fn expects<R, E>(&self, ev: &RunEvent<R, E>) -> (r: bool)
        ensures
            r == run_answers(*self, *ev),
    {
        match (self, ev) {
            (RunPhase::Acquiring, RunEvent::ConnectionAcquired(_)) => true,
            (RunPhase::Running, RunEvent::OperationFinished(_)) => true,
            _ => false,
        }
    }

    /// Takes the outcome of the pending blocking work and decides the next
    /// phase and action.
    pub fn step<R, E>(self, ev: RunEvent<R, E>) -> (r: (RunPhase, RunAction<R, E>))
        requires
            run_answers(self, ev),
        ensures
            r == run_next(self, ev),
    {
        match ev {
            RunEvent::ConnectionAcquired(Ok(())) => (RunPhase::Running, RunAction::RunOperation),
            RunEvent::ConnectionAcquired(Err(e)) => (RunPhase::Done, RunAction::Finish(Err(e))),
            RunEvent::OperationFinished(o) => (RunPhase::Done, RunAction::Finish(o)),
        }
    }
}

/// Relaying an operation changes nothing of its outcome: once a connection is
/// checked out the operation runs, and the caller receives exactly what it
/// returned, value or error. A connection that cannot be checked out gives
/// its error, and the operation does not run.
pub proof fn lemma_relay_keeps_outcome<R, E>(o: Result<R, E>, e: E)
    ensures
        run_next::<R, E>(RunPhase::Acquiring, RunEvent::ConnectionAcquired(Ok(())))
            == (RunPhase::Running, RunAction::<R, E>::RunOperation),
        run_next(RunPhase::Running, RunEvent::OperationFinished(o)) == (
            RunPhase::Done,
            RunAction::Finish(o),
        ),
        run_next::<R, E>(RunPhase::Acquiring, RunEvent::ConnectionAcquired(Err(e))) == (
            RunPhase::Done,
            RunAction::<R, E>::Finish(Err(e)),
        ),
{
}

/// Whether `ev` reports the outcome of the blocking work that `action` asked for.
pub open spec fn run_reports<R, E>(action: RunAction<R, E>, ev: RunEvent<R, E>) -> bool {
    match (action, ev) {
        (RunAction::AcquireConnection, RunEvent::ConnectionAcquired(_)) => true,
        (RunAction::RunOperation, RunEvent::OperationFinished(_)) => true,
        _ => false,
    }
}

/// One piece of work at a time: after each step the only event accepted is
/// the outcome of the action just issued, and once the outcome is handed out
/// nothing more is accepted.
pub proof fn lemma_run_one_call_at_a_time<R, E>(phase: RunPhase, ev: RunEvent<R, E>, ev2: RunEvent<R, E>)
    requires
        run_answers(phase, ev),
    ensures
        run_answers(run_next(phase, ev).0, ev2) == run_reports(run_next(phase, ev).1, ev2),
        (run_next(phase, ev).1 is Finish) == (run_next(phase, ev).0 is Done),
        run_answers(RunPhase::Acquiring, ev2) == run_reports(RunAction::<R, E>::AcquireConnection, ev2),
{
}

} // verus!
