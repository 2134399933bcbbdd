//! The raw driver port and its verified adapter.
//!
//! A real database driver lives outside this crate and can promise nothing
//! Verus could check, so the boundary is split in two: [`DriverPort`] is the
//! bare, contract-free surface an adapter implements over the driver, and
//! [`PortConnection`] is the verified bookkeeper that turns any such port
//! into a full [`Connection`], by keeping the nesting depth and the step log
//! itself and stating only what holds whatever the port returns.

use vstd::prelude::*;
use crate::connection::{Connection, StepEntry, TxStep};
use crate::errors::DriverError;

verus! {

/// The driver code returned when the nesting depth would no longer fit in
/// its counter, a level the library refuses to reach.
pub const DEPTH_LIMIT: u64 = 2;

/// What an unverified driver adapter must supply: the raw transaction-control
/// steps and raw statement execution. Nothing is promised of any of them;
/// every outcome is the driver's own.
pub trait DriverPort: Sized {
    /// Issue one begin-transaction step against the driver.
    fn begin_transaction(&mut self) -> (r: Result<(), DriverError>);

    /// Issue one commit step against the driver.
    fn commit_transaction(&mut self) -> (r: Result<(), DriverError>);

    /// Issue one rollback step against the driver.
    fn rollback_transaction(&mut self) -> (r: Result<(), DriverError>);

    /// Run several raw statements in one batch.
    fn batch_execute(&mut self, query: &str) -> (r: Result<(), DriverError>);

    /// Run one raw statement, returning the number of affected rows.
    fn execute(&mut self, query: &str) -> (r: Result<usize, DriverError>);
}

/// A driver port promoted to a full connection capability.
///
/// The adapter does the same bookkeeping a driver's own transaction manager
/// does: one more level per successful begin, one less per successful commit
/// or rollback, nothing changed by a failed step. The port is taken to be
/// quiescent — no transaction open — when the adapter is built; opening one
/// beforehand is the caller's misuse and is not detected.
pub struct PortConnection<P: DriverPort> {
    port: P,
    levels: u32,
    steps: Ghost<Seq<StepEntry>>,
}

impl<P: DriverPort> PortConnection<P> {
    /// Adopt a quiescent port, with no open level and an empty step log.
    pub fn new(port: P) -> (c: Self)
        ensures
            c.depth() == 0,
            c.log() == Seq::<StepEntry>::empty(),
    {
        PortConnection { port, levels: 0, steps: Ghost(Seq::empty()) }
    }
}

impl<P: DriverPort> Connection for PortConnection<P> {
    closed spec fn depth(&self) -> nat {
        self.levels as nat
    }

    closed spec fn log(&self) -> Seq<StepEntry> {
        self.steps@
    }

    fn begin_transaction(&mut self) -> (r: Result<(), DriverError>) {
        if self.levels == u32::MAX {
            let failure = DriverError { code: DEPTH_LIMIT };
            self.steps = Ghost(self.steps@.push((TxStep::Begin, Some(failure))));
            return Err(failure);
        }
        match self.port.begin_transaction() {
            Ok(()) => {
                self.steps = Ghost(self.steps@.push((TxStep::Begin, None)));
                self.levels = self.levels + 1;
                Ok(())
            }
            Err(e) => {
                self.steps = Ghost(self.steps@.push((TxStep::Begin, Some(e))));
                Err(e)
            }
        }
    }

    fn commit_transaction(&mut self) -> (r: Result<(), DriverError>) {
        match self.port.commit_transaction() {
            Ok(()) => {
                self.steps = Ghost(self.steps@.push((TxStep::Commit, None)));
                self.levels = self.levels - 1;
                Ok(())
            }
            Err(e) => {
                self.steps = Ghost(self.steps@.push((TxStep::Commit, Some(e))));
                Err(e)
            }
        }
    }

    fn rollback_transaction(&mut self) -> (r: Result<(), DriverError>) {
        match self.port.rollback_transaction() {
            Ok(()) => {
                self.steps = Ghost(self.steps@.push((TxStep::Rollback, None)));
                self.levels = self.levels - 1;
                Ok(())
            }
            Err(e) => {
                self.steps = Ghost(self.steps@.push((TxStep::Rollback, Some(e))));
                Err(e)
            }
        }
    }

    fn get_transaction_depth(&self) -> (d: u32) {
        self.levels
    }

    fn batch_execute(&mut self, query: &str) -> (r: Result<(), DriverError>) {
        self.port.batch_execute(query)
    }

    fn execute(&mut self, query: &str) -> (r: Result<usize, DriverError>) {
        self.port.execute(query)
    }
}

} // verus!
