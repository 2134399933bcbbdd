use transactional_connection::connection::{
    commit_remaining, force_rollback_remaining, rollback_remaining, Connection, TxStep,
};
use transactional_connection::errors::{DriverError, Error};
use transactional_connection::testkit::{ProbeConnection, ScriptedHook};
use transactional_connection::wrapper::TransactionalConnection;

fn probe_at_depth(n: u32) -> ProbeConnection {
    let mut conn = ProbeConnection::new();
    for _ in 0..n {
        conn.begin_transaction().unwrap();
    }
    conn
}

#[test]
fn commit_drains_nested_depth() {
    let mut conn = probe_at_depth(3);
    let (steps, outcome) = commit_remaining(&mut conn);
    assert_eq!(steps, 3);
    assert!(outcome.is_ok());
    assert_eq!(conn.get_transaction_depth(), 0);
    assert_eq!(
        conn.journal,
        vec![
            (TxStep::Begin, None),
            (TxStep::Begin, None),
            (TxStep::Begin, None),
            (TxStep::Commit, None),
            (TxStep::Commit, None),
            (TxStep::Commit, None),
        ]
    );
}

#[test]
fn commit_of_zero_depth_issues_no_step() {
    let mut conn = ProbeConnection::new();
    let (steps, outcome) = commit_remaining(&mut conn);
    assert_eq!(steps, 0);
    assert!(outcome.is_ok());
    assert_eq!(conn.journal, vec![]);
}

#[test]
fn commit_stops_at_first_failing_step() {
    let mut conn = probe_at_depth(2);
    conn.fail_commit = Some(7);
    let (steps, outcome) = commit_remaining(&mut conn);
    assert_eq!(steps, 1);
    assert_eq!(outcome, Err(DriverError { code: 7 }));
    assert_eq!(
        conn.journal,
        vec![(TxStep::Begin, None), (TxStep::Begin, None), (TxStep::Commit, Some(DriverError { code: 7 }))]
    );
    assert_eq!(conn.get_transaction_depth(), 2);
}

#[test]
fn rollback_drains_nested_depth() {
    let mut conn = probe_at_depth(2);
    let (steps, outcome) = rollback_remaining(&mut conn);
    assert_eq!(steps, 2);
    assert!(outcome.is_ok());
    assert_eq!(conn.get_transaction_depth(), 0);
    assert_eq!(
        conn.journal,
        vec![
            (TxStep::Begin, None),
            (TxStep::Begin, None),
            (TxStep::Rollback, None),
            (TxStep::Rollback, None),
        ]
    );
}

#[test]
fn rollback_stops_at_first_failing_step_and_reports_it() {
    let mut conn = probe_at_depth(3);
    conn.fail_rollback_after = Some((1, 9));
    let (steps, outcome) = rollback_remaining(&mut conn);
    assert_eq!(steps, 2);
    assert_eq!(outcome, Err(DriverError { code: 9 }));
    assert_eq!(conn.get_transaction_depth(), 2);
}

#[test]
fn rollback_at_depth_one_issues_single_step() {
    let mut conn = probe_at_depth(1);
    let (steps, outcome) = rollback_remaining(&mut conn);
    assert_eq!(steps, 1);
    assert!(outcome.is_ok());
    assert_eq!(conn.journal, vec![(TxStep::Begin, None), (TxStep::Rollback, None)]);
}

#[test]
fn force_rollback_continues_past_failing_steps() {
    let mut conn = probe_at_depth(3);
    conn.fail_rollback_after = Some((1, 9));
    let failures = force_rollback_remaining(&mut conn);
    assert_eq!(failures, vec![DriverError { code: 9 }, DriverError { code: 9 }]);
    assert_eq!(
        conn.journal,
        vec![
            (TxStep::Begin, None),
            (TxStep::Begin, None),
            (TxStep::Begin, None),
            (TxStep::Rollback, None),
            (TxStep::Rollback, Some(DriverError { code: 9 })),
            (TxStep::Rollback, Some(DriverError { code: 9 })),
        ]
    );
    assert_eq!(conn.get_transaction_depth(), 2);
}

#[test]
fn force_rollback_drains_cleanly_when_no_step_fails() {
    let mut conn = probe_at_depth(2);
    let failures = force_rollback_remaining(&mut conn);
    assert!(failures.is_empty());
    assert_eq!(conn.get_transaction_depth(), 0);
    assert_eq!(
        conn.journal,
        vec![
            (TxStep::Begin, None),
            (TxStep::Begin, None),
            (TxStep::Rollback, None),
            (TxStep::Rollback, None),
        ]
    );
}

#[test]
fn new_begins_a_transaction() {
    let conn = ProbeConnection::new();
    let wrapper =
        TransactionalConnection::<ProbeConnection, ScriptedHook>::new(conn).unwrap();
    assert_eq!(wrapper.get_transaction_depth(), 1);
}

#[test]
fn new_propagates_a_begin_failure() {
    let mut conn = ProbeConnection::new();
    conn.fail_begin = Some(3);
    let outcome = TransactionalConnection::<ProbeConnection, ScriptedHook>::new(conn);
    match outcome {
        Err(Error::Driver(e)) => assert_eq!(e.code, 3),
        _ => panic!("a failing begin step must surface as a driver error"),
    }
}

#[test]
fn wrapper_delegates_transaction_management() {
    let conn = ProbeConnection::new();
    let mut wrapper =
        TransactionalConnection::<ProbeConnection, ScriptedHook>::new(conn).unwrap();
    wrapper.begin_transaction().unwrap();
    wrapper.begin_transaction().unwrap();
    assert_eq!(wrapper.get_transaction_depth(), 3);
    wrapper.commit_transaction().unwrap();
    assert_eq!(wrapper.get_transaction_depth(), 2);
    wrapper.rollback_transaction().unwrap();
    assert_eq!(wrapper.get_transaction_depth(), 1);
}

#[test]
fn wrapper_delegates_statement_execution() {
    let conn = ProbeConnection::new();
    let mut wrapper =
        TransactionalConnection::<ProbeConnection, ScriptedHook>::new(conn).unwrap();
    assert!(wrapper.batch_execute("CREATE TABLE t (x INTEGER)").is_ok());
    assert_eq!(wrapper.execute("DELETE FROM t"), Ok(0));
    assert_eq!(wrapper.get_transaction_depth(), 1);
}
