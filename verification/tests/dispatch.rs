use transactional_connection::connection::Connection;
use transactional_connection::errors::{CustomError, DriverError, Error, ErrorVec};
use transactional_connection::testkit::{ProbeConnection, ScriptedHook};
use transactional_connection::wrapper::{
    fold_commit_outcome, fold_rollback_outcome, TransactionalConnection,
};

fn fresh_wrapper() -> TransactionalConnection<ProbeConnection, ScriptedHook> {
    TransactionalConnection::new(ProbeConnection::new()).unwrap()
}

#[test]
fn handle_result_commits_and_returns_the_value_unchanged() {
    let wrapper = fresh_wrapper();
    let outcome = wrapper.handle_result(Ok(42u32));
    assert_eq!(outcome, Ok(42));
}

#[test]
fn handle_result_reports_a_commit_failure() {
    let mut conn = ProbeConnection::new();
    conn.fail_commit = Some(7);
    let wrapper =
        TransactionalConnection::<ProbeConnection, ScriptedHook>::new(conn).unwrap();
    let outcome = wrapper.handle_result(Ok(42u32));
    assert_eq!(
        outcome,
        Err(ErrorVec(vec![Error::Driver(DriverError { code: 7 })]))
    );
}

#[test]
fn handle_result_rolls_back_and_preserves_the_original_error() {
    let wrapper = fresh_wrapper();
    let original = Error::Custom(CustomError { code: 4 });
    let outcome = wrapper.handle_result::<u32>(Err(original));
    assert_eq!(outcome, Err(ErrorVec(vec![original])));
}

#[test]
fn handle_result_reports_rollback_failures_over_the_original_error() {
    let mut conn = ProbeConnection::new();
    conn.begin_transaction().unwrap();
    conn.fail_rollback_after = Some((0, 9));
    let wrapper =
        TransactionalConnection::<ProbeConnection, ScriptedHook>::new(conn).unwrap();
    let original = Error::Custom(CustomError { code: 4 });
    let outcome = wrapper.handle_result::<u32>(Err(original));
    assert_eq!(
        outcome,
        Err(ErrorVec(vec![Error::Driver(DriverError { code: 9 })]))
    );
}

#[test]
fn commit_succeeds_on_a_clean_connection() {
    let wrapper = fresh_wrapper();
    assert_eq!(wrapper.commit(), Ok(()));
}

#[test]
fn commit_reports_the_first_failing_step() {
    let mut conn = ProbeConnection::new();
    conn.fail_commit = Some(7);
    let wrapper =
        TransactionalConnection::<ProbeConnection, ScriptedHook>::new(conn).unwrap();
    assert_eq!(
        wrapper.commit(),
        Err(Error::Driver(DriverError { code: 7 }))
    );
}

#[test]
fn fold_commit_outcome_keeps_the_value_on_success() {
    assert_eq!(fold_commit_outcome(5u32, Ok(())), Ok(5));
}

#[test]
fn fold_commit_outcome_reports_the_commit_failure() {
    let failure = Error::Driver(DriverError { code: 2 });
    assert_eq!(
        fold_commit_outcome(5u32, Err(failure)),
        Err(ErrorVec(vec![failure]))
    );
}

#[test]
fn fold_rollback_outcome_keeps_the_original_error_on_success() {
    let original = Error::Custom(CustomError { code: 8 });
    assert_eq!(fold_rollback_outcome(original, Ok(())), ErrorVec(vec![original]));
}

#[test]
fn fold_rollback_outcome_reports_the_rollback_failures() {
    let original = Error::Custom(CustomError { code: 8 });
    let failures = ErrorVec(vec![Error::Driver(DriverError { code: 9 })]);
    assert_eq!(
        fold_rollback_outcome(original, Err(failures.clone())),
        failures
    );
}
