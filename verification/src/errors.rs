//! The error taxonomy: driver failures, caller-supplied (hook) failures, and
//! the aggregate used when several independent cleanup steps fail.

use vstd::prelude::*;

verus! {

/// A failure surfaced by the underlying connection or its transaction
/// manager, identified by a driver-assigned code.
#[derive(Clone, Copy, Debug, PartialEq, Eq, Structural)]
pub struct DriverError {
    pub code: u64,
}

/// A caller- or domain-level failure, such as one returned by a rollback
/// hook, identified by a caller-assigned code.
#[derive(Clone, Copy, Debug, PartialEq, Eq, Structural)]
pub struct CustomError {
    pub code: u64,
}

/// A single failure: either the driver's or the caller's.
#[derive(Clone, Copy, Debug, PartialEq, Eq, Structural)]
pub enum Error {
    Driver(DriverError),
    Custom(CustomError),
}

/// An ordered list of independent failures, reported together when rollback
/// attempted several cleanup steps despite earlier failures.
#[derive(Clone, Debug, PartialEq, Eq)]
pub struct ErrorVec(pub Vec<Error>);

impl ErrorVec {
    /// The errors held, as a sequence.
    pub open spec fn view(&self) -> Seq<Error> {
        self.0@
    }
}

} // verus!
