//! Verified test doubles: an in-memory connection that records every
//! transaction-control step and can be scripted to fail, and a hook with a
//! scripted outcome. They let the managed wrapper be exercised without a
//! database.

use vstd::prelude::*;
use crate::connection::{Connection, StepEntry, TxStep};
use crate::errors::{CustomError, DriverError};
use crate::hooks::RollbackHook;

verus! {

/// An in-memory stand-in for a database connection.
///
/// It keeps the nesting depth as a counter and the full journal of steps
/// issued against it, and can be scripted, through its public fields, to
/// fail begin steps, commit steps, or rollback steps after a number of
/// successes. Statement execution touches no state and affects no rows.
pub struct ProbeConnection {
    /// The number of open transaction levels.
    pub levels: u32,
    /// Every transaction-control step issued, oldest first, each with the
    /// driver error it failed with, if it failed.
    pub journal: Vec<StepEntry>,
    /// When set, every begin step fails with this driver code.
    pub fail_begin: Option<u64>,
    /// When set, every commit step fails with this driver code.
    pub fail_commit: Option<u64>,
    /// When set to `(k, code)`, the next `k` rollback steps succeed and
    /// every later one fails with this driver code.
    pub fail_rollback_after: Option<(u32, u64)>,
}

impl ProbeConnection {
    /// A fresh connection: no open transaction, an empty journal, nothing
    /// scripted to fail.
    pub fn new() -> (c: Self)
        ensures
            c.depth() == 0,
            c.log() == Seq::<StepEntry>::empty(),
            c.fail_begin is None,
            c.fail_commit is None,
            c.fail_rollback_after is None,
    {
        ProbeConnection {
            levels: 0,
            journal: Vec::new(),
            fail_begin: None,
            fail_commit: None,
            fail_rollback_after: None,
        }
    }
}

impl Connection for ProbeConnection {
    open spec fn depth(&self) -> nat {
        self.levels as nat
    }

    open spec fn log(&self) -> Seq<StepEntry> {
        self.journal@
    }

    fn begin_transaction(&mut self) -> (r: Result<(), DriverError>)
        ensures
            old(self).fail_begin matches Some(code) ==> (r matches Err(e) && e.code == code),
            old(self).fail_begin is None && old(self).levels < u32::MAX ==> r is Ok,
    {
        match self.fail_begin {
            Some(code) => {
                let failure = DriverError { code };
                self.journal.push((TxStep::Begin, Some(failure)));
                Err(failure)
            }
            None => {
                if self.levels == u32::MAX {
                    let failure = DriverError { code: u64::MAX };
                    self.journal.push((TxStep::Begin, Some(failure)));
                    Err(failure)
                } else {
                    self.levels = self.levels + 1;
                    self.journal.push((TxStep::Begin, None));
                    Ok(())
                }
            }
        }
    }

    fn commit_transaction(&mut self) -> (r: Result<(), DriverError>)
        ensures
            old(self).fail_commit matches Some(code) ==> (r matches Err(e) && e.code == code),
            old(self).fail_commit is None ==> r is Ok,
    {
        match self.fail_commit {
            Some(code) => {
                let failure = DriverError { code };
                self.journal.push((TxStep::Commit, Some(failure)));
                Err(failure)
            }
            None => {
                self.levels = self.levels - 1;
                self.journal.push((TxStep::Commit, None));
                Ok(())
            }
        }
    }

    fn rollback_transaction(&mut self) -> (r: Result<(), DriverError>)
        ensures
            old(self).fail_rollback_after is None ==> r is Ok,
            old(self).fail_rollback_after matches Some((k, code)) ==> ((k == 0 ==> (r matches Err(
                e,
            ) && e.code == code)) && (k > 0 ==> r is Ok)),
    {
        match self.fail_rollback_after {
            Some((successes_left, code)) => {
                if successes_left == 0 {
                    let failure = DriverError { code };
                    self.journal.push((TxStep::Rollback, Some(failure)));
                    Err(failure)
                } else {
                    self.fail_rollback_after = Some((successes_left - 1, code));
                    self.levels = self.levels - 1;
                    self.journal.push((TxStep::Rollback, None));
                    Ok(())
                }
            }
            None => {
                self.levels = self.levels - 1;
                self.journal.push((TxStep::Rollback, None));
                Ok(())
            }
        }
    }

    fn get_transaction_depth(&self) -> (d: u32) {
        self.levels
    }

    fn batch_execute(&mut self, query: &str) -> (r: Result<(), DriverError>) {
        Ok(())
    }

    fn execute(&mut self, query: &str) -> (r: Result<usize, DriverError>) {
        Ok(0)
    }
}

/// A hook with a scripted outcome: it succeeds, or fails with the given
/// caller code.
#[derive(Clone, Copy, Debug)]
pub struct ScriptedHook {
    /// When set, running the hook fails with this code.
    pub fail_with: Option<u64>,
}

impl RollbackHook for ScriptedHook {
    fn run(self) -> (r: Result<(), CustomError>)
        ensures
            self.fail_with matches Some(code) ==> (r matches Err(e) && e.code == code),
            self.fail_with is None ==> r is Ok,
    {
        match self.fail_with {
            Some(code) => Err(CustomError { code }),
            None => Ok(()),
        }
    }
}

} // verus!
