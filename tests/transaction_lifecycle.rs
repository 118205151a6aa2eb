use async_diesel::transaction::{TxAction, TxEvent, TxPhase};

#[derive(Debug, PartialEq, Eq)]
enum DbError {
    UniqueViolation(String),
    Connection(String),
    Rollback(String),
}

type Phase = TxPhase<u64, DbError>;

fn feed(phase: Phase, ev: TxEvent<u64, DbError>) -> (Phase, TxAction<u64, DbError>) {
    assert!(phase.expects(&ev));
    phase.step(ev)
}

#[test]
fn starts_by_acquiring_a_connection() {
    let (p, a) = Phase::start();
    assert_eq!(p, TxPhase::Acquiring);
    assert_eq!(a, TxAction::AcquireConnection);
}

#[test]
fn successful_body_is_committed() {
    let (p, _) = Phase::start();
    let (p, a) = feed(p, TxEvent::ConnectionAcquired(Ok(())));
    assert_eq!(a, TxAction::BeginTransaction);
    let (p, a) = feed(p, TxEvent::Begun(Ok(())));
    assert_eq!(a, TxAction::RunBody);
    let (p, a) = feed(p, TxEvent::BodyFinished(Ok(42)));
    assert_eq!(p, TxPhase::Committing(42));
    assert_eq!(a, TxAction::CommitTransaction);
    let (p, a) = feed(p, TxEvent::Committed(Ok(())));
    assert_eq!(p, TxPhase::Done);
    assert_eq!(a, TxAction::Finish(Ok(42)));
}

#[test]
fn failed_commit_reports_the_commit_error() {
    let p = TxPhase::Committing(7);
    let (p, a) = feed(p, TxEvent::Committed(Err(DbError::Connection("gone".to_string()))));
    assert_eq!(p, TxPhase::Done);
    assert_eq!(a, TxAction::Finish(Err(DbError::Connection("gone".to_string()))));
}

#[test]
fn failed_body_is_rolled_back_and_its_error_kept() {
    let (p, a) = feed(TxPhase::Running, TxEvent::BodyFinished(Err(DbError::Connection("x".to_string()))));
    assert_eq!(a, TxAction::RollbackTransaction);
    let (p, a) = feed(p, TxEvent::RolledBack(Ok(())));
    assert_eq!(p, TxPhase::Done);
    assert_eq!(a, TxAction::Finish(Err(DbError::Connection("x".to_string()))));
}

#[test]
fn failed_rollback_replaces_the_body_error() {
    let (p, _) = feed(TxPhase::Running, TxEvent::BodyFinished(Err(DbError::Connection("x".to_string()))));
    let (p, a) = feed(p, TxEvent::RolledBack(Err(DbError::Rollback("y".to_string()))));
    assert_eq!(p, TxPhase::Done);
    assert_eq!(a, TxAction::Finish(Err(DbError::Rollback("y".to_string()))));
}

#[test]
fn unique_violation_in_body_rolls_back_and_reports_it() {
    let mut actions = Vec::new();
    let (mut p, a) = Phase::start();
    actions.push(a);
    let events = vec![
        TxEvent::ConnectionAcquired(Ok(())),
        TxEvent::Begun(Ok(())),
        TxEvent::BodyFinished(Err(DbError::UniqueViolation("users_pkey".to_string()))),
        TxEvent::RolledBack(Ok(())),
    ];
    for ev in events {
        let (np, a) = feed(p, ev);
        p = np;
        actions.push(a);
    }
    assert_eq!(p, TxPhase::Done);
    assert_eq!(
        actions,
        vec![
            TxAction::AcquireConnection,
            TxAction::BeginTransaction,
            TxAction::RunBody,
            TxAction::RollbackTransaction,
            TxAction::Finish(Err(DbError::UniqueViolation("users_pkey".to_string()))),
        ]
    );
    assert!(!actions.contains(&TxAction::CommitTransaction));
}

#[test]
fn failed_checkout_finishes_without_beginning() {
    let (p, a) = feed(TxPhase::Acquiring, TxEvent::ConnectionAcquired(Err(DbError::Connection("pool".to_string()))));
    assert_eq!(p, TxPhase::Done);
    assert_eq!(a, TxAction::Finish(Err(DbError::Connection("pool".to_string()))));
}

#[test]
fn failed_begin_finishes_without_running_the_body() {
    let (p, a) = feed(TxPhase::Beginning, TxEvent::Begun(Err(DbError::Connection("begin".to_string()))));
    assert_eq!(p, TxPhase::Done);
    assert_eq!(a, TxAction::Finish(Err(DbError::Connection("begin".to_string()))));
}

#[test]
fn phases_accept_only_their_own_event() {
    let p: Phase = TxPhase::Acquiring;
    assert!(p.expects(&TxEvent::ConnectionAcquired(Ok(()))));
    assert!(!p.expects(&TxEvent::Begun(Ok(()))));
    let p: Phase = TxPhase::Running;
    assert!(p.expects(&TxEvent::BodyFinished(Ok(1))));
    assert!(!p.expects(&TxEvent::Committed(Ok(()))));
    let p: Phase = TxPhase::Committing(1);
    assert!(p.expects(&TxEvent::Committed(Ok(()))));
    assert!(!p.expects(&TxEvent::RolledBack(Ok(()))));
    let p: Phase = TxPhase::RollingBack(DbError::Rollback("r".to_string()));
    assert!(p.expects(&TxEvent::RolledBack(Ok(()))));
    let p: Phase = TxPhase::Done;
    assert!(!p.expects(&TxEvent::ConnectionAcquired(Ok(()))));
    assert!(!p.expects(&TxEvent::BodyFinished(Ok(1))));
}
