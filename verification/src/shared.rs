//! A shared, lock-guarded handle to one managed wrapper, for several
//! concurrent callers issuing statements and registering hooks against the
//! same transaction.
//!
//! Every connection operation acquires the handle's connection lock for the
//! duration of one call on the wrapper, so no two operations ever interleave
//! on the underlying connection; ordering among contending callers is
//! whatever the lock provides. Hook registration has a lock of its own and
//! therefore never blocks on an in-flight statement; the registered hooks
//! join the wrapper's stack when a terminal operation runs. The terminal
//! operations take the wrapper out of the handle, and any later operation
//! fails loudly instead of reaching a finalized transaction.

use vstd::prelude::*;
use vstd::rwlock::{RwLock, RwLockPredicate};
use crate::connection::Connection;
use crate::errors::{CustomError, DriverError, Error, ErrorVec};
use crate::hooks::RollbackHook;
use crate::wrapper::TransactionalConnection;

verus! {

/// The caller code returned when an operation reaches a handle whose
/// wrapper was already consumed by a terminal operation.
pub const ALREADY_FINALIZED: u64 = 3;

/// The lock predicate of a shared handle: any state of the guarded value is
/// admissible, since what it may hold changes with every operation.
pub struct Unrestricted;

impl<C: Connection, H: RollbackHook> RwLockPredicate<
    Option<TransactionalConnection<C, H>>,
> for Unrestricted {
    open spec fn inv(self, v: Option<TransactionalConnection<C, H>>) -> bool {
        true
    }
}

impl<H: RollbackHook> RwLockPredicate<Vec<H>> for Unrestricted {
    open spec fn inv(self, v: Vec<H>) -> bool {
        true
    }
}

/// A lock-guarded slot holding one managed wrapper until a terminal
/// operation consumes it, beside a separately locked list of the hooks
/// registered through the handle.
pub struct SharedConnection<C: Connection, H: RollbackHook> {
    slot: RwLock<Option<TransactionalConnection<C, H>>, Unrestricted>,
    registered_hooks: RwLock<Vec<H>, Unrestricted>,
}

impl<C: Connection, H: RollbackHook> SharedConnection<C, H> {
    /// Share a managed wrapper behind a lock.
    pub fn new(wrapper: TransactionalConnection<C, H>) -> (s: SharedConnection<C, H>) {
        SharedConnection {
            slot: RwLock::new(Some(wrapper), Ghost(Unrestricted)),
            registered_hooks: RwLock::new(Vec::new(), Ghost(Unrestricted)),
        }
    }

    /// Register a compensating action on the shared transaction. The hook
    /// list has its own lock, so registration never blocks on an in-flight
    /// statement; the hooks join the wrapper's stack, in registration
    /// order, when a terminal operation runs. One registered after the
    /// transaction was finalized is discarded: there is nothing left to
    /// compensate.
    ///
    /// Hooks run most recently registered first; when several callers
    /// register hooks concurrently, "most recent" means whatever order the
    /// lock admitted them in, and no ordering across callers is promised.
    pub fn add_rollback_hook(&self, hook: H) {
        let (mut pending, handle) = self.registered_hooks.acquire_write();
        pending.push(hook);
        handle.release_write(pending);
    }

    /// Open one more nested transaction level on the shared transaction.
    pub fn begin_transaction(&self) -> (r: Result<(), Error>)
        ensures
            r matches Err(e) ==> e is Driver || (e matches Error::Custom(c) && c.code
                == ALREADY_FINALIZED),
    {
        let (value, handle) = self.slot.acquire_write();
        match value {
            Some(mut wrapper) => {
                let step = wrapper.begin_transaction();
                handle.release_write(Some(wrapper));
                match step {
                    Ok(()) => Ok(()),
                    Err(e) => Err(Error::Driver(e)),
                }
            }
            None => {
                handle.release_write(None);
                Err(Error::Custom(CustomError { code: ALREADY_FINALIZED }))
            }
        }
    }

    /// The nesting depth of the shared transaction; zero once the wrapper
    /// was consumed.
    pub fn get_transaction_depth(&self) -> (d: u32) {
        let (value, handle) = self.slot.acquire_write();
        let d = match &value {
            Some(wrapper) => wrapper.get_transaction_depth(),
            None => 0,
        };
        handle.release_write(value);
        d
    }

    /// Run several raw statements in one batch on the shared connection.
    pub fn batch_execute(&self, query: &str) -> (r: Result<(), Error>)
        ensures
            r matches Err(e) ==> e is Driver || (e matches Error::Custom(c) && c.code
                == ALREADY_FINALIZED),
    {
        let (value, handle) = self.slot.acquire_write();
        match value {
            Some(mut wrapper) => {
                let outcome = wrapper.batch_execute(query);
                handle.release_write(Some(wrapper));
                match outcome {
                    Ok(()) => Ok(()),
                    Err(e) => Err(Error::Driver(e)),
                }
            }
            None => {
                handle.release_write(None);
                Err(Error::Custom(CustomError { code: ALREADY_FINALIZED }))
            }
        }
    }

    /// Run one raw statement on the shared connection, returning the number
    /// of affected rows.
    pub fn execute(&self, query: &str) -> (r: Result<usize, Error>)
        ensures
            r matches Err(e) ==> e is Driver || (e matches Error::Custom(c) && c.code
                == ALREADY_FINALIZED),
    {
        let (value, handle) = self.slot.acquire_write();
        match value {
            Some(mut wrapper) => {
                let outcome = wrapper.execute(query);
                handle.release_write(Some(wrapper));
                match outcome {
                    Ok(rows) => Ok(rows),
                    Err(e) => Err(Error::Driver(e)),
                }
            }
            None => {
                handle.release_write(None);
                Err(Error::Custom(CustomError { code: ALREADY_FINALIZED }))
            }
        }
    }

    /// Whether a terminal operation already consumed the wrapper.
    pub fn is_finalized(&self) -> (b: bool) {
        let (value, handle) = self.slot.acquire_write();
        let finalized = value.is_none();
        handle.release_write(value);
        finalized
    }

    /// Take the wrapper out of the slot, moving the hooks registered
    /// through the handle onto its stack in registration order, and leaving
    /// later operations to fail loudly on the emptied handle.
    fn take(&self) -> (w: Option<TransactionalConnection<C, H>>) {
        let (value, handle) = self.slot.acquire_write();
        handle.release_write(None);
        match value {
            Some(mut wrapper) => {
                let (mut pending, hooks_handle) = self.registered_hooks.acquire_write();
                hooks_handle.release_write(Vec::new());
                while pending.len() > 0
                    decreases pending@.len(),
                {
                    let hook = pending.remove(0);
                    wrapper.add_rollback_hook(hook);
                }
                Some(wrapper)
            }
            None => None,
        }
    }

    /// Finalize an abandoned shared transaction on a best-effort basis: run
    /// every hook and force-drain the open levels, continuing past failing
    /// steps, handing every failure back (see
    /// [`TransactionalConnection::abandon`]). On a handle that was already
    /// finalized there is nothing to do and no failure to report.
    pub fn abandon(&self) -> (failures: Vec<Error>)
        ensures
            forall|i: int, j: int|
                0 <= i < j < failures@.len() && (#[trigger] failures@[i]) is Driver ==> (
                #[trigger] failures@[j]) is Driver,
    {
        match self.take() {
            Some(wrapper) => wrapper.abandon(),
            None => Vec::new(),
        }
    }

    /// Commit the shared transaction; the first terminal operation wins and
    /// a second one fails loudly.
    pub fn commit(&self) -> (r: Result<(), Error>)
        ensures
            r matches Err(e) ==> e is Driver || (e matches Error::Custom(c) && c.code
                == ALREADY_FINALIZED),
    {
        match self.take() {
            Some(wrapper) => wrapper.commit(),
            None => Err(Error::Custom(CustomError { code: ALREADY_FINALIZED })),
        }
    }

    /// Roll the shared transaction back; the first terminal operation wins
    /// and a second one fails loudly.
    pub fn rollback(&self) -> (r: Result<(), ErrorVec>)
        ensures
            r matches Err(v) ==> v@.len() >= 1,
    {
        match self.take() {
            Some(wrapper) => wrapper.rollback(),
            None => {
                let mut errs: Vec<Error> = Vec::new();
                errs.push(Error::Custom(CustomError { code: ALREADY_FINALIZED }));
                Err(ErrorVec(errs))
            }
        }
    }

    /// Finalize the shared transaction according to a caller-supplied
    /// outcome: commit on success, roll back on failure.
    pub fn handle_result<T>(&self, res: Result<T, Error>) -> (r: Result<T, ErrorVec>)
        ensures
            res matches Ok(v) ==> (r matches Ok(x) ==> x == v),
            res is Err ==> r is Err,
            r matches Err(ev) ==> ev@.len() >= 1,
    {
        match self.take() {
            Some(wrapper) => wrapper.handle_result(res),
            None => {
                let mut errs: Vec<Error> = Vec::new();
                errs.push(Error::Custom(CustomError { code: ALREADY_FINALIZED }));
                match res {
                    Ok(_) => Err(ErrorVec(errs)),
                    Err(original) => {
                        errs.push(original);
                        Err(ErrorVec(errs))
                    }
                }
            }
        }
    }
}

} // verus!
