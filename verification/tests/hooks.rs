use transactional_connection::connection::Connection;
use transactional_connection::errors::{CustomError, DriverError, Error, ErrorVec};
use transactional_connection::hooks::{collect_failures, run_hooks, NoHook, RollbackHook};
use transactional_connection::testkit::{ProbeConnection, ScriptedHook};
use transactional_connection::wrapper::TransactionalConnection;

fn failing(code: u64) -> ScriptedHook {
    ScriptedHook {
        fail_with: Some(code),
    }
}

fn succeeding() -> ScriptedHook {
    ScriptedHook { fail_with: None }
}

#[test]
fn hooks_run_in_reverse_registration_order() {
    let mut hooks = vec![failing(1), failing(2), failing(3)];
    let outcomes = run_hooks(&mut hooks);
    assert!(hooks.is_empty());
    assert_eq!(
        outcomes,
        vec![
            (2, Err(CustomError { code: 3 })),
            (1, Err(CustomError { code: 2 })),
            (0, Err(CustomError { code: 1 })),
        ]
    );
}

#[test]
fn a_failing_hook_does_not_stop_earlier_registered_hooks() {
    let mut hooks = vec![succeeding(), failing(5), succeeding(), failing(6)];
    let outcomes = run_hooks(&mut hooks);
    assert_eq!(outcomes.len(), 4);
    assert_eq!(
        outcomes,
        vec![
            (3, Err(CustomError { code: 6 })),
            (2, Ok(())),
            (1, Err(CustomError { code: 5 })),
            (0, Ok(())),
        ]
    );
}

#[test]
fn running_an_empty_hook_stack_yields_no_outcome() {
    let mut hooks: Vec<ScriptedHook> = vec![];
    let outcomes = run_hooks(&mut hooks);
    assert!(outcomes.is_empty());
}

#[test]
fn collect_failures_of_a_lone_step_failure_holds_just_it() {
    let errs = collect_failures(vec![], Some(DriverError { code: 9 }));
    assert_eq!(errs, vec![Error::Driver(DriverError { code: 9 })]);
}

#[test]
fn no_hook_succeeds() {
    assert_eq!(NoHook.run(), Ok(()));
}

#[test]
fn collect_failures_keeps_every_failure_in_order() {
    let outcomes = vec![
        (3, Err(CustomError { code: 6 })),
        (2, Ok(())),
        (1, Err(CustomError { code: 5 })),
        (0, Ok(())),
    ];
    let errs = collect_failures(outcomes, Some(DriverError { code: 9 }));
    assert_eq!(
        errs,
        vec![
            Error::Custom(CustomError { code: 6 }),
            Error::Custom(CustomError { code: 5 }),
            Error::Driver(DriverError { code: 9 }),
        ]
    );
}

#[test]
fn collect_failures_of_clean_outcomes_is_empty() {
    let outcomes = vec![(1, Ok(())), (0, Ok(()))];
    let errs = collect_failures(outcomes, None);
    assert!(errs.is_empty());
}

#[test]
fn rollback_runs_hooks_newest_first_and_aggregates() {
    let conn = ProbeConnection::new();
    let mut wrapper =
        TransactionalConnection::<ProbeConnection, ScriptedHook>::new(conn).unwrap();
    wrapper.add_rollback_hook(failing(1));
    wrapper.add_rollback_hook(failing(2));
    wrapper.add_rollback_hook(failing(3));
    let outcome = wrapper.rollback();
    assert_eq!(
        outcome,
        Err(ErrorVec(vec![
            Error::Custom(CustomError { code: 3 }),
            Error::Custom(CustomError { code: 2 }),
            Error::Custom(CustomError { code: 1 }),
        ]))
    );
}

#[test]
fn rollback_reports_hook_failures_before_the_step_failure() {
    let mut conn = ProbeConnection::new();
    conn.begin_transaction().unwrap();
    conn.fail_rollback_after = Some((0, 9));
    let mut wrapper =
        TransactionalConnection::<ProbeConnection, ScriptedHook>::new(conn).unwrap();
    wrapper.add_rollback_hook(succeeding());
    wrapper.add_rollback_hook(failing(4));
    let outcome = wrapper.rollback();
    assert_eq!(
        outcome,
        Err(ErrorVec(vec![
            Error::Custom(CustomError { code: 4 }),
            Error::Driver(DriverError { code: 9 }),
        ]))
    );
}

#[test]
fn rollback_with_clean_hooks_and_steps_succeeds() {
    let conn = ProbeConnection::new();
    let mut wrapper =
        TransactionalConnection::<ProbeConnection, ScriptedHook>::new(conn).unwrap();
    wrapper.add_rollback_hook(succeeding());
    wrapper.add_rollback_hook(succeeding());
    assert_eq!(wrapper.rollback(), Ok(()));
}
