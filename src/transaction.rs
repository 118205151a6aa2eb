//! The lifecycle of a transaction whose body is asynchronous caller code.
//!
//! One connection is checked out and held for the whole operation. The
//! transaction is begun, the body runs, and then the transaction is either
//! committed (the body succeeded) or rolled back (the body failed). A failed
//! rollback replaces the body's error.
use vstd::prelude::*;

verus! {

/// Where a transaction stands, between two blocking calls.
#[derive(Debug, PartialEq, Eq)]
pub enum TxPhase<R, E> {
    /// Waiting for a connection to be checked out.
    Acquiring,
    /// Waiting for the transaction to begin.
    Beginning,
    /// Waiting for the caller's body to finish.
    Running,
    /// The body returned this value; waiting for the commit.
    Committing(R),
    /// The body failed with this error; waiting for the rollback.
    RollingBack(E),
    /// The outcome has been handed out; nothing more happens.
    Done,
}

/// What came back from the work that the previous action asked for.
/// Errors of the connection layer arrive already converted into `E`.
#[derive(Debug, PartialEq, Eq)]
pub enum TxEvent<R, E> {
    ConnectionAcquired(Result<(), E>),
    Begun(Result<(), E>),
    BodyFinished(Result<R, E>),
    Committed(Result<(), E>),
    RolledBack(Result<(), E>),
}

/// What the driver must do next.
#[derive(Debug, PartialEq, Eq)]
pub enum TxAction<R, E> {
    AcquireConnection,
    BeginTransaction,
    RunBody,
    CommitTransaction,
    RollbackTransaction,
    /// Hand this outcome to the caller.
    Finish(Result<R, E>),
}

/// The event that answers the blocking work of `phase`.
pub open spec fn answers<R, E>(phase: TxPhase<R, E>, ev: TxEvent<R, E>) -> bool {
    match (phase, ev) {
        (TxPhase::Acquiring, TxEvent::ConnectionAcquired(_)) => true,
        (TxPhase::Beginning, TxEvent::Begun(_)) => true,
        (TxPhase::Running, TxEvent::BodyFinished(_)) => true,
        (TxPhase::Committing(_), TxEvent::Committed(_)) => true,
        (TxPhase::RollingBack(_), TxEvent::RolledBack(_)) => true,
        _ => false,
    }
}

/// The transition table of the lifecycle. Only events that `answers` accepts
/// are ever fed; the last arm just makes the table total.
pub open spec fn next<R, E>(phase: TxPhase<R, E>, ev: TxEvent<R, E>) -> (TxPhase<R, E>, TxAction<R, E>) {
    match (phase, ev) {
        (TxPhase::Acquiring, TxEvent::ConnectionAcquired(Ok(()))) =>
            (TxPhase::Beginning, TxAction::BeginTransaction),
        (TxPhase::Beginning, TxEvent::Begun(Ok(()))) => (TxPhase::Running, TxAction::RunBody),
        (TxPhase::Running, TxEvent::BodyFinished(Ok(v))) =>
            (TxPhase::Committing(v), TxAction::CommitTransaction),
        (TxPhase::Running, TxEvent::BodyFinished(Err(x))) =>
            (TxPhase::RollingBack(x), TxAction::RollbackTransaction),
        (TxPhase::Committing(v), TxEvent::Committed(Ok(()))) =>
            (TxPhase::Done, TxAction::Finish(Ok(v))),
        (TxPhase::RollingBack(x), TxEvent::RolledBack(Ok(()))) =>
            (TxPhase::Done, TxAction::Finish(Err(x))),
        (_, TxEvent::ConnectionAcquired(Err(e))) => (TxPhase::Done, TxAction::Finish(Err(e))),
        (_, TxEvent::Begun(Err(e))) => (TxPhase::Done, TxAction::Finish(Err(e))),
        (_, TxEvent::Committed(Err(e))) => (TxPhase::Done, TxAction::Finish(Err(e))),
        (_, TxEvent::RolledBack(Err(y))) => (TxPhase::Done, TxAction::Finish(Err(y))),
        (p, _) => (p, TxAction::AcquireConnection),
    }
}

impl<R, E> TxPhase<R, E> {
    /// The phase of a transaction that has not started, and the first action.
    pub fn start() -> (r: (TxPhase<R, E>, TxAction<R, E>))
        ensures
            r.0 is Acquiring,
            r.1 is AcquireConnection,
    {
        (TxPhase::Acquiring, TxAction::AcquireConnection)
    }

    /// Whether `ev` answers the work this phase waits for.
    pub fn expects(&self, ev: &TxEvent<R, E>) -> (r: bool)
        ensures
            r == answers(*self, *ev),
    {
        match (self, ev) {
            (TxPhase::Acquiring, TxEvent::ConnectionAcquired(_)) => true,
            (TxPhase::Beginning, TxEvent::Begun(_)) => true,
            (TxPhase::Running, TxEvent::BodyFinished(_)) => true,
            (TxPhase::Committing(_), TxEvent::Committed(_)) => true,
            (TxPhase::RollingBack(_), TxEvent::RolledBack(_)) => true,
            _ => false,
        }
    }

    /// Takes the outcome of the pending blocking work and decides the next
    /// phase and action.
    pub fn step(self, ev: TxEvent<R, E>) -> (r: (TxPhase<R, E>, TxAction<R, E>))
        requires
            answers(self, ev),
        ensures
            r == next(self, ev),
    {
        match (self, ev) {
            (TxPhase::Acquiring, TxEvent::ConnectionAcquired(res)) => match res {
                Ok(()) => (TxPhase::Beginning, TxAction::BeginTransaction),
                Err(e) => (TxPhase::Done, TxAction::Finish(Err(e))),
            },
            (TxPhase::Beginning, TxEvent::Begun(res)) => match res {
                Ok(()) => (TxPhase::Running, TxAction::RunBody),
                Err(e) => (TxPhase::Done, TxAction::Finish(Err(e))),
            },
            (TxPhase::Running, TxEvent::BodyFinished(res)) => match res {
                Ok(v) => (TxPhase::Committing(v), TxAction::CommitTransaction),
                Err(x) => (TxPhase::RollingBack(x), TxAction::RollbackTransaction),
            },
            (TxPhase::Committing(v), TxEvent::Committed(res)) => match res {
                Ok(()) => (TxPhase::Done, TxAction::Finish(Ok(v))),
                Err(e) => (TxPhase::Done, TxAction::Finish(Err(e))),
            },
            (TxPhase::RollingBack(x), TxEvent::RolledBack(res)) => match res {
                Ok(()) => (TxPhase::Done, TxAction::Finish(Err(x))),
                Err(y) => (TxPhase::Done, TxAction::Finish(Err(y))),
            },
            (p, _) => (p, TxAction::AcquireConnection),
        }
    }
}

/// Feeds `evs` to the lifecycle from `phase`, one at a time: the phase reached
/// and the actions issued, or `None` where an event does not answer the work
/// being waited for.
pub open spec fn drive<R, E>(phase: TxPhase<R, E>, evs: Seq<TxEvent<R, E>>) -> Option<(TxPhase<R, E>, Seq<TxAction<R, E>>)>
    decreases evs.len(),
{
    if evs.len() == 0 {
        Some((phase, Seq::empty()))
    } else if !answers(phase, evs[0]) {
        None
    } else {
        let (p1, a1) = next(phase, evs[0]);
        match drive(p1, evs.drop_first()) {
            Some((p, acts)) => Some((p, seq![a1].add(acts))),
            None => None,
        }
    }
}

/// The events of a transaction in which every blocking call and the body succeed.
pub open spec fn committing_events<R, E>(v: R) -> Seq<TxEvent<R, E>> {
    seq![
        TxEvent::ConnectionAcquired(Ok(())),
        TxEvent::Begun(Ok(())),
        TxEvent::BodyFinished(Ok(v)),
        TxEvent::Committed(Ok(())),
    ]
}

/// The actions that answer `committing_events(v)`.
pub open spec fn committing_actions<R, E>(v: R) -> Seq<TxAction<R, E>> {
    seq![
        TxAction::BeginTransaction,
        TxAction::RunBody,
        TxAction::CommitTransaction,
        TxAction::Finish(Ok(v)),
    ]
}

/// The events still owed, from `phase`, for a transaction that ends in
/// `Ok(v)`; `None` where it can no longer end so.
pub open spec fn events_to_commit<R, E>(phase: TxPhase<R, E>, v: R) -> Option<Seq<TxEvent<R, E>>> {
    match phase {
        TxPhase::Acquiring => Some(committing_events(v)),
        TxPhase::Beginning => Some(committing_events(v).drop_first()),
        TxPhase::Running => Some(committing_events(v).subrange(2, 4)),
        TxPhase::Committing(v0) => if v0 == v {
            Some(committing_events(v).subrange(3, 4))
        } else {
            None
        },
        _ => None,
    }
}

proof fn lemma_ends_in_ok<R, E>(phase: TxPhase<R, E>, evs: Seq<TxEvent<R, E>>, v: R)
    requires
        drive(phase, evs) matches Some((_, acts)) && acts.len() > 0 && acts.last()
            == TxAction::<R, E>::Finish(Ok(v)),
    ensures
        events_to_commit(phase, v) == Some(evs),
    decreases evs.len(),
{
    let (p1, a1) = next(phase, evs[0]);
    let rest = evs.drop_first();
    let acts = drive(phase, evs)->Some_0.1;
    let racts = drive(p1, rest)->Some_0.1;
    assert(acts == seq![a1].add(racts));
    if racts.len() > 0 {
        assert(racts.last() == acts.last());
        lemma_ends_in_ok(p1, rest, v);
        assert(evs == seq![evs[0]].add(rest));
        let ce = committing_events::<R, E>(v);
        match phase {
            TxPhase::Acquiring => {
                assert(p1 is Beginning);
                match evs[0] {
                    TxEvent::ConnectionAcquired(Ok(u)) => assert(u == ()),
                    _ => {},
                }
                assert(evs[0] == ce[0]);
                assert(ce.drop_first() =~= rest);
                assert(ce =~= evs);
            },
            TxPhase::Beginning => {
                match evs[0] {
                    TxEvent::Begun(Ok(u)) => assert(u == ()),
                    _ => {},
                }
                assert(evs[0] == ce[1]);
                assert(ce.subrange(2, 4) =~= rest);
                assert(ce.drop_first() =~= evs);
            },
            TxPhase::Running => {
                assert(evs[0] == ce[2]);
                assert(ce.subrange(3, 4) =~= rest);
                assert(ce.subrange(2, 4) =~= evs);
            },
            _ => {},
        }
    } else {
        assert(rest.len() == 0) by {
            if rest.len() > 0 {
                let (p2, a2) = next(p1, rest[0]);
                match drive(p2, rest.drop_first()) {
                    Some((_, r2)) => assert(racts == seq![a2].add(r2)),
                    None => {},
                }
            }
        }
        assert(evs =~= seq![evs[0]]);
        match evs[0] {
            TxEvent::Committed(Ok(u)) => assert(u == ()),
            _ => {},
        }
        assert(committing_events::<R, E>(v).subrange(3, 4) =~= evs);
    }
}

/// A transaction hands out `Ok(v)` exactly when the connection was checked
/// out, the transaction begun, the body returned `v` and the commit
/// succeeded, in that order; the blocking work issued is then begin, body
/// and commit, and no rollback.
pub proof fn lemma_commit<R, E>(evs: Seq<TxEvent<R, E>>, v: R)
    ensures
        (drive(TxPhase::Acquiring, evs) matches Some((_, acts)) && acts.len() > 0
            && acts.last() == TxAction::<R, E>::Finish(Ok(v)))
            <==> evs == committing_events::<R, E>(v),
        drive(TxPhase::Acquiring, committing_events::<R, E>(v))
            == Some((TxPhase::<R, E>::Done, committing_actions::<R, E>(v))),
{
    let ce = committing_events::<R, E>(v);
    let ca = committing_actions::<R, E>(v);
    reveal_with_fuel(drive, 2);
    assert(drive(TxPhase::<R, E>::Committing(v), ce.subrange(3, 4))
        == Some((TxPhase::<R, E>::Done, ca.subrange(3, 4)))) by {
        assert(ce.subrange(3, 4).drop_first() =~= Seq::empty());
        assert(seq![ca[3]].add(Seq::empty()) =~= ca.subrange(3, 4));
    }
    assert(drive(TxPhase::<R, E>::Running, ce.subrange(2, 4))
        == Some((TxPhase::<R, E>::Done, ca.subrange(2, 4)))) by {
        assert(ce.subrange(2, 4).drop_first() =~= ce.subrange(3, 4));
        assert(seq![ca[2]].add(ca.subrange(3, 4)) =~= ca.subrange(2, 4));
    }
    assert(drive(TxPhase::<R, E>::Beginning, ce.subrange(1, 4))
        == Some((TxPhase::<R, E>::Done, ca.subrange(1, 4)))) by {
        assert(ce.subrange(1, 4).drop_first() =~= ce.subrange(2, 4));
        assert(seq![ca[1]].add(ca.subrange(2, 4)) =~= ca.subrange(1, 4));
    }
    assert(drive(TxPhase::<R, E>::Acquiring, ce) == Some((TxPhase::<R, E>::Done, ca))) by {
        assert(ce.drop_first() =~= ce.subrange(1, 4));
        assert(seq![ca[0]].add(ca.subrange(1, 4)) =~= ca);
    }
    if drive(TxPhase::Acquiring, evs) matches Some((_, acts)) && acts.len() > 0 && acts.last()
        == TxAction::<R, E>::Finish(Ok(v)) {
        lemma_ends_in_ok(TxPhase::Acquiring, evs, v);
    }
}

/// The events of a transaction whose body fails with `x`, and whose rollback
/// then reports `rollback`.
pub open spec fn failing_events<R, E>(x: E, rollback: Result<(), E>) -> Seq<TxEvent<R, E>> {
    seq![
        TxEvent::ConnectionAcquired(Ok(())),
        TxEvent::Begun(Ok(())),
        TxEvent::BodyFinished(Err(x)),
        TxEvent::RolledBack(rollback),
    ]
}

/// When the body fails with `x` the transaction is rolled back, never
/// committed. The caller then receives `x` unchanged if the rollback
/// succeeds, and the rollback's own error `y` in place of `x` if it fails.
pub proof fn lemma_rollback<R, E>(x: E, rollback: Result<(), E>)
    ensures
        drive(TxPhase::Acquiring, failing_events::<R, E>(x, rollback)) == Some((
            TxPhase::<R, E>::Done,
            seq![
                TxAction::<R, E>::BeginTransaction,
                TxAction::RunBody,
                TxAction::RollbackTransaction,
                TxAction::Finish(
                    match rollback {
                        Ok(()) => Err(x),
                        Err(y) => Err(y),
                    },
                ),
            ],
        )),
{
    reveal_with_fuel(drive, 5);
    let fe = failing_events::<R, E>(x, rollback);
    assert(fe.drop_first() =~= fe.subrange(1, 4));
    assert(fe.subrange(1, 4).drop_first() =~= fe.subrange(2, 4));
    assert(fe.subrange(2, 4).drop_first() =~= fe.subrange(3, 4));
    assert(fe.subrange(3, 4).drop_first() =~= Seq::<TxEvent<R, E>>::empty());
    let fin = TxAction::<R, E>::Finish(
        match rollback {
            Ok(()) => Err(x),
            Err(y) => Err(y),
        },
    );
    assert(seq![fin].add(Seq::empty()) =~= seq![fin]);
    assert(seq![TxAction::<R, E>::RollbackTransaction].add(seq![fin]) =~= seq![
        TxAction::RollbackTransaction,
        fin,
    ]);
    assert(seq![TxAction::<R, E>::RunBody].add(seq![TxAction::RollbackTransaction, fin])
        =~= seq![TxAction::RunBody, TxAction::RollbackTransaction, fin]);
    assert(seq![TxAction::<R, E>::BeginTransaction].add(
        seq![TxAction::RunBody, TxAction::RollbackTransaction, fin],
    ) =~= seq![TxAction::BeginTransaction, TxAction::RunBody, TxAction::RollbackTransaction, fin]);
}

/// Whether `ev` reports the outcome of the blocking work that `action` asked for.
pub open spec fn reports<R, E>(action: TxAction<R, E>, ev: TxEvent<R, E>) -> bool {
    match (action, ev) {
        (TxAction::AcquireConnection, TxEvent::ConnectionAcquired(_)) => true,
        (TxAction::BeginTransaction, TxEvent::Begun(_)) => true,
        (TxAction::RunBody, TxEvent::BodyFinished(_)) => true,
        (TxAction::CommitTransaction, TxEvent::Committed(_)) => true,
        (TxAction::RollbackTransaction, TxEvent::RolledBack(_)) => true,
        _ => false,
    }
}

/// The lifecycle issues one piece of work at a time on its connection: after
/// each step the only event accepted is the outcome of the action just
/// issued, so no further work is asked for until that action has completed.
/// Once the outcome is handed out, nothing more is accepted.
pub proof fn lemma_one_call_at_a_time<R, E>(phase: TxPhase<R, E>, ev: TxEvent<R, E>, ev2: TxEvent<R, E>)
    requires
        answers(phase, ev),
    ensures
        answers(next(phase, ev).0, ev2) == reports(next(phase, ev).1, ev2),
        (next(phase, ev).1 is Finish) == (next(phase, ev).0 is Done),
        answers(TxPhase::<R, E>::Acquiring, ev2) == reports(TxAction::<R, E>::AcquireConnection, ev2),
        !answers(TxPhase::<R, E>::Done, ev2),
{
}

} // verus!
