//! The managed transactional connection: it begins a transaction when built,
//! tracks nested depth through the [`Connection`] capability, carries the
//! stack of rollback hooks, and is consumed exactly once by `commit`,
//! `rollback` or `handle_result`.

use vstd::prelude::*;
use crate::connection::{
    commit_remaining, force_rollback_remaining, rollback_remaining, Connection, StepEntry, TxStep,
};
use crate::errors::{DriverError, Error, ErrorVec};
use crate::hooks::{collect_failures, lemma_hook_failures_shape, run_hooks, RollbackHook};

verus! {

/// A database connection whose transaction lifecycle is managed: built over
/// an underlying connection with a freshly begun transaction, consumed by
/// exactly one terminal operation.
///
/// Ownership is the serialization discipline: every operation takes the
/// wrapper exclusively, so no two operations can ever interleave on the
/// underlying connection. A shared, locked handle for concurrent callers is
/// a shell around this type, not part of it.
pub struct TransactionalConnection<C: Connection, H: RollbackHook> {
    conn: C,
    hooks: Vec<H>,
}

impl<C: Connection, H: RollbackHook> TransactionalConnection<C, H> {
    /// The hooks registered and not yet run, in registration order.
    pub closed spec fn pending_hooks(&self) -> Seq<H> {
        self.hooks@
    }

    /// Wrap an established connection, immediately beginning a transaction
    /// on it.
    ///
    /// On success the wrapper holds the connection with one more open
    /// transaction level and an empty hook stack. If the begin step fails,
    /// that driver failure is returned and the connection is not handed
    /// back: the caller must re-establish one.
    pub fn new(conn: C) -> (r: Result<Self, Error>)
        ensures
            r matches Ok(w) ==> w.depth() == conn.depth() + 1 && w.log() == conn.log().push(
                (TxStep::Begin, Option::<DriverError>::None),
            ) && w.pending_hooks().len() == 0,
            r matches Err(e) ==> e is Driver,
    {
        let mut conn = conn;
        match conn.begin_transaction() {
            Ok(()) => Ok(TransactionalConnection { conn, hooks: Vec::new() }),
            Err(e) => Err(Error::Driver(e)),
        }
    }

    /// Register a compensating action to be run if the transaction does not
    /// commit. Hooks are stacked: the one registered last runs first. The
    /// connection itself is not touched.
    pub fn add_rollback_hook(&mut self, hook: H)
        ensures
            final(self).pending_hooks() == old(self).pending_hooks().push(hook),
            final(self).depth() == old(self).depth(),
            final(self).log() == old(self).log(),
    {
        self.hooks.push(hook);
    }

    /// Commit every open transaction level, consuming the wrapper.
    ///
    /// Commit steps are issued until the depth reaches zero, failing fast:
    /// the first failing step is returned and no further step is attempted
    /// (see [`commit_remaining`] for the step-exact contract). Hooks are not
    /// run: they compensate only for a transaction that did not commit.
    pub fn commit(self) -> (r: Result<(), Error>)
        ensures
            self.depth() == 0 ==> r is Ok,
            r matches Err(e) ==> e is Driver,
    {
        let mut conn = self.conn;
        let (_, outcome) = commit_remaining(&mut conn);
        match outcome {
            Ok(()) => Ok(()),
            Err(e) => Err(Error::Driver(e)),
        }
    }

    /// Roll the transaction back, consuming the wrapper.
    ///
    /// Every hook is run first, most recently registered first, continuing
    /// past individual hook failures (see [`run_hooks`]); then rollback
    /// steps are issued until the depth reaches zero or a step fails (see
    /// [`rollback_remaining`]). All failures met on the way are reported
    /// together, hook failures in execution order before the step failure
    /// (see [`collect_failures`]); none is swallowed.
    pub fn rollback(self) -> (r: Result<(), ErrorVec>)
        ensures
            self.pending_hooks().len() == 0 && self.depth() == 0 ==> r is Ok,
            r matches Err(v) ==> 1 <= v@.len() <= self.pending_hooks().len() + 1,
            r matches Err(v) ==> (forall|i: int|
                0 <= i < v@.len() - 1 ==> (#[trigger] v@[i]) is Custom),
    {
        let mut conn = self.conn;
        let mut hooks = self.hooks;
        let outcomes = run_hooks(&mut hooks);
        let (_, step_outcome) = rollback_remaining(&mut conn);
        let step_failure = match step_outcome {
            Ok(()) => None,
            Err(e) => Some(e),
        };
        let errs = collect_failures(outcomes, step_failure);
        proof {
            lemma_hook_failures_shape(outcomes@);
        }
        if errs.len() == 0 {
            Ok(())
        } else {
            Err(ErrorVec(errs))
        }
    }

    /// Finalize according to a caller-supplied outcome, consuming the
    /// wrapper: commit on success, roll back on failure.
    ///
    /// The outcome's own value or error is preserved by
    /// [`fold_commit_outcome`] and [`fold_rollback_outcome`]: a successful
    /// finalize step hands back the original value, or the original error
    /// alone; only a failing finalize step replaces it with the failures of
    /// that step.
    pub fn handle_result<T>(self, res: Result<T, Error>) -> (r: Result<T, ErrorVec>)
        ensures
            res matches Ok(v) ==> (r matches Ok(x) ==> x == v),
            res matches Ok(v) ==> (r matches Err(ev) ==> ev@.len() == 1 && ev@[0] is Driver),
            self.depth() == 0 ==> (res matches Ok(v) ==> (r matches Ok(x) && x == v)),
            res is Err ==> r is Err,
            res is Err ==> (r matches Err(ev) ==> 1 <= ev@.len() <= self.pending_hooks().len()
                + 1),
            res matches Err(e) ==> (r matches Err(ev) ==> ev@ == seq![e] || (forall|i: int|
                0 <= i < ev@.len() - 1 ==> (#[trigger] ev@[i]) is Custom)),
            self.depth() == 0 && self.pending_hooks().len() == 0 ==> (res matches Err(e) ==> (
            r matches Err(ev) && ev@ == seq![e])),
    {
        match res {
            Ok(v) => fold_commit_outcome(v, self.commit()),
            Err(e) => Err(fold_rollback_outcome(e, self.rollback())),
        }
    }

    /// Finalize an abandoned wrapper on a best-effort basis, consuming it:
    /// run every hook, most recently registered first, then issue rollback
    /// steps while the depth stays above zero, continuing past failing
    /// steps (budgeted by the starting depth, see
    /// [`force_rollback_remaining`]).
    ///
    /// All failures met are handed back, hook failures in execution order
    /// before the step failures: destruction has no error channel of its
    /// own, so the caller's scope guard disposes of each per its policy.
    pub fn abandon(self) -> (failures: Vec<Error>)
        ensures
            failures@.len() <= self.pending_hooks().len() + self.depth(),
            self.pending_hooks().len() == 0 && self.depth() == 0 ==> failures@.len() == 0,
            forall|i: int, j: int|
                0 <= i < j < failures@.len() && (#[trigger] failures@[i]) is Driver ==> (
                #[trigger] failures@[j]) is Driver,
    {
        let mut conn = self.conn;
        let mut hooks = self.hooks;
        let outcomes = run_hooks(&mut hooks);
        let mut failures = collect_failures(outcomes, None);
        proof {
            lemma_hook_failures_shape(outcomes@);
        }
        let ghost hook_failure_count = failures@.len();
        let step_failures = force_rollback_remaining(&mut conn);
        let mut i: usize = 0;
        while i < step_failures.len()
            invariant
                i <= step_failures@.len(),
                failures@.len() == hook_failure_count + i,
                hook_failure_count + step_failures@.len() <= self.pending_hooks().len()
                    + self.depth(),
                forall|k: int|
                    0 <= k < hook_failure_count ==> (#[trigger] failures@[k]) is Custom,
                forall|k: int|
                    hook_failure_count <= k < failures@.len() ==> (#[trigger] failures@[k])
                        is Driver,
            decreases step_failures@.len() - i,
        {
            let step_failure = step_failures[i];
            failures.push(Error::Driver(step_failure));
            i = i + 1;
        }
        failures
    }
}

/// How `handle_result` folds a commit outcome over the caller's successful
/// value: a clean commit hands the value back unchanged; a failed commit
/// replaces it with that single driver failure.
pub fn fold_commit_outcome<T>(value: T, commit_result: Result<(), Error>) -> (r: Result<
    T,
    ErrorVec,
>)
    ensures
        commit_result is Ok ==> (r matches Ok(x) && x == value),
        commit_result matches Err(e) ==> (r matches Err(v) && v@ == seq![e]),
{
    match commit_result {
        Ok(()) => Ok(value),
        Err(e) => {
            let mut errs: Vec<Error> = Vec::new();
            errs.push(e);
            proof {
                assert(errs@ =~= seq![e]);
            }
            Err(ErrorVec(errs))
        }
    }
}

/// How `handle_result` folds a rollback outcome over the caller's original
/// error: a clean rollback reports exactly that original error; a failed
/// rollback reports its own aggregated failures instead.
pub fn fold_rollback_outcome(original: Error, rollback_result: Result<(), ErrorVec>) -> (r:
    ErrorVec)
    ensures
        rollback_result is Ok ==> r@ == seq![original],
        rollback_result matches Err(v) ==> r == v,
{
    match rollback_result {
        Ok(()) => {
            let mut errs: Vec<Error> = Vec::new();
            errs.push(original);
            proof {
                assert(errs@ =~= seq![original]);
            }
            ErrorVec(errs)
        }
        Err(v) => v,
    }
}

/// The wrapper is itself a connection: its transaction-manager and execution
/// operations serialize on the wrapper and forward to the underlying
/// connection, so it can stand wherever a plain connection is expected.
impl<C: Connection, H: RollbackHook> Connection for TransactionalConnection<C, H> {
    closed spec fn depth(&self) -> nat {
        self.conn.depth()
    }

    closed spec fn log(&self) -> Seq<StepEntry> {
        self.conn.log()
    }

    fn begin_transaction(&mut self) -> (r: Result<(), DriverError>)
        ensures
            final(self).pending_hooks() == old(self).pending_hooks(),
    {
        self.conn.begin_transaction()
    }

    fn commit_transaction(&mut self) -> (r: Result<(), DriverError>)
        ensures
            final(self).pending_hooks() == old(self).pending_hooks(),
    {
        self.conn.commit_transaction()
    }

    fn rollback_transaction(&mut self) -> (r: Result<(), DriverError>)
        ensures
            final(self).pending_hooks() == old(self).pending_hooks(),
    {
        self.conn.rollback_transaction()
    }

    fn get_transaction_depth(&self) -> (d: u32) {
        self.conn.get_transaction_depth()
    }

    fn batch_execute(&mut self, query: &str) -> (r: Result<(), DriverError>)
        ensures
            final(self).pending_hooks() == old(self).pending_hooks(),
    {
        self.conn.batch_execute(query)
    }

    fn execute(&mut self, query: &str) -> (r: Result<usize, DriverError>)
        ensures
            final(self).pending_hooks() == old(self).pending_hooks(),
    {
        self.conn.execute(query)
    }
}

} // verus!
