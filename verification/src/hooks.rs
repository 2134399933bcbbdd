//! Rollback hooks: one-shot compensating actions for side effects performed
//! outside the database, run when the transaction does not commit.

use vstd::prelude::*;
use crate::errors::{CustomError, DriverError, Error};

verus! {

/// A one-shot, fallible, zero-argument compensating action.
///
/// A hook is consumed by `run`, so the type system already guarantees it is
/// invoked at most once. Nothing is promised of the outcome: a hook may fail
/// for any reason of its own.
pub trait RollbackHook: Sized {
    /// Perform the compensating action.
    fn run(self) -> (r: Result<(), CustomError>);
}

/// A hook that compensates for nothing and always succeeds, for callers that
/// register no cleanup of their own.
#[derive(Clone, Copy, Debug)]
pub struct NoHook;

impl RollbackHook for NoHook {
    fn run(self) -> (r: Result<(), CustomError>)
        ensures
            r is Ok,
    {
        Ok(())
    }
}

/// Drain the hook stack, running every hook exactly once, most recently
/// registered first, and continuing past individual failures.
///
/// The returned list holds one entry per registered hook — none is skipped,
/// whatever the earlier outcomes were — pairing the hook's position in
/// registration order with what its run returned; the entries stand in
/// execution order, which is exactly the reverse of registration order.
/// Each outcome is the result of running that very hook: it satisfies the
/// postcondition of `run` on the hook that stood at its position.
pub fn run_hooks<H: RollbackHook>(hooks: &mut Vec<H>) -> (outcomes: Vec<
    (usize, Result<(), CustomError>),
>)
    ensures
        final(hooks)@.len() == 0,
        outcomes@.len() == old(hooks)@.len(),
        forall|j: int|
            0 <= j < outcomes@.len() ==> (#[trigger] outcomes@[j]).0 as int == old(hooks)@.len() - 1
                - j,
        forall|j: int|
            0 <= j < outcomes@.len() ==> call_ensures(
                H::run,
                (old(hooks)@[old(hooks)@.len() - 1 - j],),
                (#[trigger] outcomes@[j]).1,
            ),
{
    let ghost n = old(hooks)@.len();
    let mut outcomes: Vec<(usize, Result<(), CustomError>)> = Vec::new();
    while hooks.len() > 0
        invariant
            n == old(hooks)@.len(),
            outcomes@.len() + hooks@.len() == n,
            hooks@ =~= old(hooks)@.subrange(0, hooks@.len() as int),
            forall|j: int|
                0 <= j < outcomes@.len() ==> (#[trigger] outcomes@[j]).0 as int == n - 1 - j,
            forall|j: int|
                0 <= j < outcomes@.len() ==> call_ensures(
                    H::run,
                    (old(hooks)@[n - 1 - j],),
                    (#[trigger] outcomes@[j]).1,
                ),
        decreases hooks@.len(),
    {
        let hook = hooks.pop().unwrap();
        proof {
            assert(hooks@ =~= old(hooks)@.subrange(0, hooks@.len() as int));
        }
        let position = hooks.len();
        let outcome = hook.run();
        outcomes.push((position, outcome));
    }
    outcomes
}

/// What a sequence of hook outcomes contributes to the aggregate error list:
/// each failure, in the order the outcomes stand, and nothing else.
pub open spec fn hook_failures(outcomes: Seq<(usize, Result<(), CustomError>)>) -> Seq<Error>
    decreases outcomes.len(),
{
    if outcomes.len() == 0 {
        Seq::empty()
    } else {
        hook_failures(outcomes.drop_last()) + (match outcomes.last().1 {
            Result::Err(e) => seq![Error::Custom(e)],
            Result::Ok(_) => Seq::empty(),
        })
    }
}

/// What one hook outcome contributes to the aggregate error list: its
/// failure as a caller error, or nothing.
pub open spec fn failure_of(outcome: (usize, Result<(), CustomError>)) -> Option<Error> {
    match outcome.1 {
        Result::Err(e) => Option::Some(Error::Custom(e)),
        Result::Ok(_) => Option::None,
    }
}

/// No failure is lost and no success adds anything: the errors aggregated
/// from a run's outcomes are exactly the failed outcomes, each mapped to a
/// caller error, in the order the outcomes stand.
pub proof fn lemma_no_failure_lost(outcomes: Seq<(usize, Result<(), CustomError>)>)
    ensures
        hook_failures(outcomes) == outcomes.filter_map(
            |outcome: (usize, Result<(), CustomError>)| failure_of(outcome),
        ),
    decreases outcomes.len(),
{
    let as_failure = |outcome: (usize, Result<(), CustomError>)| failure_of(outcome);
    if outcomes.len() == 0 {
    } else {
        lemma_no_failure_lost(outcomes.drop_last());
        match outcomes.last().1 {
            Result::Err(e) => {
                assert(hook_failures(outcomes) =~= outcomes.filter_map(as_failure));
            }
            Result::Ok(_) => {
                assert(hook_failures(outcomes) =~= outcomes.filter_map(as_failure));
            }
        }
    }
}

/// Hook outcomes contribute only caller errors, and at most one per
/// outcome.
pub proof fn lemma_hook_failures_shape(outcomes: Seq<(usize, Result<(), CustomError>)>)
    ensures
        hook_failures(outcomes).len() <= outcomes.len(),
        forall|i: int|
            0 <= i < hook_failures(outcomes).len() ==> (#[trigger] hook_failures(outcomes)[i])
                is Custom,
    decreases outcomes.len(),
{
    if outcomes.len() > 0 {
        lemma_hook_failures_shape(outcomes.drop_last());
    }
}

/// What a final rollback-step outcome contributes to the aggregate error
/// list: the step's failure, if there was one.
pub open spec fn step_failure_errors(step_failure: Option<DriverError>) -> Seq<Error> {
    match step_failure {
        Option::Some(d) => seq![Error::Driver(d)],
        Option::None => Seq::empty(),
    }
}

/// Aggregate the failures of a rollback: every hook failure, in execution
/// order, followed by the rollback-step failure if one occurred. No failure
/// is lost and no successful outcome adds anything.
pub fn collect_failures(
    outcomes: Vec<(usize, Result<(), CustomError>)>,
    step_failure: Option<DriverError>,
) -> (errs: Vec<Error>)
    ensures
        errs@ == hook_failures(outcomes@) + step_failure_errors(step_failure),
{
    let mut errs: Vec<Error> = Vec::new();
    let mut i: usize = 0;
    while i < outcomes.len()
        invariant
            i <= outcomes@.len(),
            errs@ == hook_failures(outcomes@.take(i as int)),
        decreases outcomes@.len() - i,
    {
        let (_, outcome) = outcomes[i];
        match outcome {
            Ok(()) => {}
            Err(e) => {
                errs.push(Error::Custom(e));
            }
        }
        proof {
            assert(outcomes@.take(i + 1).drop_last() =~= outcomes@.take(i as int));
            assert(outcomes@.take(i + 1).last() == outcomes@[i as int]);
        }
        i = i + 1;
    }
    proof {
        assert(outcomes@.take(outcomes@.len() as int) =~= outcomes@);
    }
    match step_failure {
        Some(d) => {
            errs.push(Error::Driver(d));
        }
        None => {}
    }
    proof {
        assert(errs@ =~= hook_failures(outcomes@) + step_failure_errors(step_failure));
    }
    errs
}

} // verus!
