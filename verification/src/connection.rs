//! The capability a database connection must offer for its transaction
//! lifecycle to be managed: begin, commit and rollback steps, a nesting-depth
//! counter, and raw statement execution.
//!
//! The model of a connection is the pair of its current nesting depth and the
//! ordered log of every transaction-control step issued against it, each
//! entry recording the step and, when it failed, the driver error it failed
//! with.

use vstd::prelude::*;
use crate::errors::DriverError;

verus! {

/// One transaction-control step issued against a connection.
#[derive(Clone, Copy, Debug, PartialEq, Eq, Structural)]
pub enum TxStep {
    Begin,
    Commit,
    Rollback,
}

/// One entry of a connection's step log: the step issued and, if it failed,
/// the driver error it failed with.
pub type StepEntry = (TxStep, Option<DriverError>);

/// The log entry a step's result leaves: the step, and its failure if it
/// had one.
pub open spec fn entry_of(step: TxStep, r: Result<(), DriverError>) -> StepEntry {
    (
        step,
        match r {
            Result::Ok(_) => Option::None,
            Result::Err(e) => Option::Some(e),
        },
    )
}

/// `n` successful copies of the same step, the shape a clean draining loop
/// leaves in the log.
pub open spec fn repeated_ok(step: TxStep, n: nat) -> Seq<StepEntry> {
    Seq::new(n, |i: int| (step, Option::<DriverError>::None))
}

/// The driver errors of the failed entries of a log segment, in the order
/// the entries stand.
pub open spec fn step_failures_of(entries: Seq<StepEntry>) -> Seq<DriverError>
    decreases entries.len(),
{
    if entries.len() == 0 {
        Seq::empty()
    } else {
        step_failures_of(entries.drop_last()) + (match entries.last().1 {
            Option::Some(e) => seq![e],
            Option::None => Seq::empty(),
        })
    }
}

/// Appending one more successful equal step extends a clean run by one.
pub proof fn lemma_repeated_ok_extend(prefix: Seq<StepEntry>, step: TxStep, k: nat)
    ensures
        (prefix + repeated_ok(step, k)).push((step, Option::<DriverError>::None)) == prefix
            + repeated_ok(step, k + 1),
{
    assert((prefix + repeated_ok(step, k)).push((step, Option::<DriverError>::None)) =~= prefix
        + repeated_ok(step, (k + 1) as nat));
}

/// The transactional capability of an underlying database connection.
///
/// Exactly what a driver promises of each operation is stated here once, over
/// the connection's depth and step log; the managed wrapper is verified
/// against these contracts alone, so it serves any driver whose adapter
/// honours them. A failed commit or rollback step leaves the depth
/// unspecified: once a driver signals an error mid-transaction its state is
/// no longer trustworthy.
pub trait Connection: Sized {
    /// The number of nested begin steps not yet matched by a commit or
    /// rollback step.
    spec fn depth(&self) -> nat;

    /// Every transaction-control step issued against this connection, oldest
    /// first, each with its outcome.
    spec fn log(&self) -> Seq<StepEntry>;

    /// Issue one begin-transaction step.
    fn begin_transaction(&mut self) -> (r: Result<(), DriverError>)
        ensures
            final(self).log() == old(self).log().push(entry_of(TxStep::Begin, r)),
            r is Ok ==> final(self).depth() == old(self).depth() + 1,
            r is Err ==> final(self).depth() == old(self).depth(),
    ;

    /// Issue one commit step, closing the innermost open transaction.
    fn commit_transaction(&mut self) -> (r: Result<(), DriverError>)
        requires
            old(self).depth() > 0,
        ensures
            final(self).log() == old(self).log().push(entry_of(TxStep::Commit, r)),
            r is Ok ==> final(self).depth() == old(self).depth() - 1,
    ;

    /// Issue one rollback step, undoing the innermost open transaction.
    fn rollback_transaction(&mut self) -> (r: Result<(), DriverError>)
        requires
            old(self).depth() > 0,
        ensures
            final(self).log() == old(self).log().push(entry_of(TxStep::Rollback, r)),
            r is Ok ==> final(self).depth() == old(self).depth() - 1,
    ;

    /// Read the current nesting depth.
    fn get_transaction_depth(&self) -> (d: u32)
        ensures
            d as nat == self.depth(),
    ;

    /// Run several raw statements in one batch.
    fn batch_execute(&mut self, query: &str) -> (r: Result<(), DriverError>)
        ensures
            final(self).depth() == old(self).depth(),
            final(self).log() == old(self).log(),
    ;

    /// Run one raw statement, returning the number of affected rows.
    fn execute(&mut self, query: &str) -> (r: Result<usize, DriverError>)
        ensures
            final(self).depth() == old(self).depth(),
            final(self).log() == old(self).log(),
    ;
}

/// Issue commit steps until the depth reaches zero, stopping at the first
/// failing step.
///
/// For a connection with `N` open nested transactions, success issues exactly
/// `N` commit steps and leaves the depth at zero. The first failing step ends
/// the loop at once and is returned: the log then shows the successful run
/// followed by that one failed entry and nothing after it. The pair holds
/// the number of commit steps issued and the outcome.
pub fn commit_remaining<C: Connection>(conn: &mut C) -> (r: (u32, Result<(), DriverError>))
    ensures
        r.1 is Ok ==> final(conn).depth() == 0 && r.0 as nat == old(conn).depth() && final(conn).log() == old(conn).log() + repeated_ok(TxStep::Commit, r.0 as nat),
        r.1 matches Err(e) ==> 1 <= r.0 as nat <= old(conn).depth() && final(conn).log() == old(
            conn,
        ).log() + repeated_ok(TxStep::Commit, (r.0 - 1) as nat) + seq![
            (TxStep::Commit, Option::Some(e)),
        ],
{
    let ghost n = old(conn).depth();
    let mut steps: u32 = 0;
    let mut d: u32 = conn.get_transaction_depth();
    while d > 0
        invariant
            n == old(conn).depth(),
            n <= u32::MAX,
            d as nat == conn.depth(),
            conn.depth() + steps as nat == n,
            conn.log() == old(conn).log() + repeated_ok(TxStep::Commit, steps as nat),
        decreases d,
    {
        let step_result = conn.commit_transaction();
        match step_result {
            Ok(()) => {
                proof {
                    lemma_repeated_ok_extend(old(conn).log(), TxStep::Commit, steps as nat);
                }
            }
            Err(e) => {
                proof {
                    assert(conn.log() =~= old(conn).log() + repeated_ok(
                        TxStep::Commit,
                        steps as nat,
                    ) + seq![(TxStep::Commit, Option::Some(e))]);
                }
                return (steps + 1, Err(e));
            }
        }
        steps = steps + 1;
        d = conn.get_transaction_depth();
    }
    (steps, Ok(()))
}

/// Issue rollback steps until the depth reaches zero, stopping at the first
/// failing step.
///
/// For a connection with `N` open nested transactions, success issues exactly
/// `N` rollback steps and leaves the depth at zero. The first failing step
/// ends the loop at once and is returned, so the depth may then remain above
/// zero: the log shows the successful run followed by that one failed entry
/// and nothing after it. The pair holds the number of rollback steps issued
/// and the outcome.
pub fn rollback_remaining<C: Connection>(conn: &mut C) -> (r: (u32, Result<(), DriverError>))
    ensures
        r.1 is Ok ==> final(conn).depth() == 0 && r.0 as nat == old(conn).depth() && final(conn).log() == old(conn).log() + repeated_ok(TxStep::Rollback, r.0 as nat),
        r.1 matches Err(e) ==> 1 <= r.0 as nat <= old(conn).depth() && final(conn).log() == old(
            conn,
        ).log() + repeated_ok(TxStep::Rollback, (r.0 - 1) as nat) + seq![
            (TxStep::Rollback, Option::Some(e)),
        ],
{
    let ghost n = old(conn).depth();
    let mut steps: u32 = 0;
    let mut d: u32 = conn.get_transaction_depth();
    while d > 0
        invariant
            n == old(conn).depth(),
            n <= u32::MAX,
            d as nat == conn.depth(),
            conn.depth() + steps as nat == n,
            conn.log() == old(conn).log() + repeated_ok(TxStep::Rollback, steps as nat),
        decreases d,
    {
        let step_result = conn.rollback_transaction();
        match step_result {
            Ok(()) => {
                proof {
                    lemma_repeated_ok_extend(old(conn).log(), TxStep::Rollback, steps as nat);
                }
            }
            Err(e) => {
                proof {
                    assert(conn.log() =~= old(conn).log() + repeated_ok(
                        TxStep::Rollback,
                        steps as nat,
                    ) + seq![(TxStep::Rollback, Option::Some(e))]);
                }
                return (steps + 1, Err(e));
            }
        }
        steps = steps + 1;
        d = conn.get_transaction_depth();
    }
    (steps, Ok(()))
}

/// Issue rollback steps while the depth stays above zero, continuing past
/// failing steps, budgeted by the starting depth so that it terminates even
/// against a driver whose failed steps change nothing.
///
/// This is the last-resort drain for an abandoned transaction: every failure
/// is collected, none stops the loop. Every step issued is a rollback step;
/// at most the starting depth of them are issued; the failures handed back
/// are exactly the errors of the failed entries the drain appended to the
/// log, in order; and when no step failed, the depth was driven all the way
/// to zero by exactly that many steps.
pub fn force_rollback_remaining<C: Connection>(conn: &mut C) -> (failures: Vec<DriverError>)
    ensures
        old(conn).log().len() <= final(conn).log().len() <= old(conn).log().len() + old(conn).depth(),
        final(conn).log().subrange(0, old(conn).log().len() as int) == old(conn).log(),
        forall|i: int|
            old(conn).log().len() <= i < final(conn).log().len() ==> (#[trigger] final(conn).log()[i]).0 == TxStep::Rollback,
        failures@.len() <= old(conn).depth(),
        failures@ == step_failures_of(final(conn).log().skip(old(conn).log().len() as int)),
        failures@.len() == 0 ==> final(conn).depth() == 0 && final(conn).log() == old(conn).log() + repeated_ok(TxStep::Rollback, old(conn).depth()),
{
    let ghost n = old(conn).depth();
    let mut failures: Vec<DriverError> = Vec::new();
    let start: u32 = conn.get_transaction_depth();
    let mut issued: u32 = 0;
    let mut d: u32 = start;
    while d > 0 && issued < start
        invariant
            n == old(conn).depth(),
            start as nat == n,
            d as nat == conn.depth(),
            issued <= start,
            issued as nat == conn.log().len() - old(conn).log().len(),
            conn.log().subrange(0, old(conn).log().len() as int) == old(conn).log(),
            forall|i: int|
                old(conn).log().len() <= i < conn.log().len() ==> (#[trigger] conn.log()[i]).0
                    == TxStep::Rollback,
            failures@.len() <= issued,
            failures@ == step_failures_of(conn.log().skip(old(conn).log().len() as int)),
            failures@.len() == 0 ==> conn.depth() + issued as nat == n && conn.log() == old(conn).log() + repeated_ok(TxStep::Rollback, issued as nat),
        decreases start - issued,
    {
        let ghost segment_before = conn.log().skip(old(conn).log().len() as int);
        let step_result = conn.rollback_transaction();
        proof {
            assert(conn.log().subrange(0, old(conn).log().len() as int) =~= old(conn).log());
            let segment = conn.log().skip(old(conn).log().len() as int);
            assert(segment.drop_last() =~= segment_before);
        }
        match step_result {
            Ok(()) => {
                proof {
                    if failures@.len() == 0 {
                        lemma_repeated_ok_extend(old(conn).log(), TxStep::Rollback, issued as nat);
                    }
                }
            }
            Err(e) => {
                failures.push(e);
            }
        }
        issued = issued + 1;
        d = conn.get_transaction_depth();
    }
    proof {
        assert(failures@ =~= step_failures_of(conn.log().skip(old(conn).log().len() as int)));
    }
    failures
}

} // verus!
