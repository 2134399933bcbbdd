//! Selection of the drop-time error policy: what a scope guard should do
//! with failures that surface while it finalizes an abandoned wrapper, a
//! moment that has no error-return channel of its own.

use vstd::prelude::*;
use crate::errors::CustomError;

verus! {

/// The error code returned when both the logging and the escalating policy
/// are requested at once.
pub const POLICY_CONFLICT: u64 = 1;

/// What to do with a failure met while finalizing an abandoned wrapper.
#[derive(Clone, Copy, Debug, PartialEq, Eq, Structural)]
pub enum DropErrorPolicy {
    /// Discard the failure silently.
    Ignore,
    /// Emit the failure to a diagnostic stream.
    Log,
    /// Escalate the failure to an unrecoverable process fault.
    Panic,
}

/// Turn the two optional error-reporting switches into one policy,
/// rejecting the contradictory request for both.
///
/// Asking to log and to escalate at the same time is a misconfiguration and
/// is refused; otherwise the stronger switch wins and neither switch means
/// failures are ignored.
pub fn select_drop_error_policy(log_errors_on_drop: bool, panic_errors_on_drop: bool) -> (r:
    Result<DropErrorPolicy, CustomError>)
    ensures
        r is Ok <==> !(log_errors_on_drop && panic_errors_on_drop),
        r is Err ==> r->Err_0.code == POLICY_CONFLICT,
        r is Ok ==> r->Ok_0 == (if panic_errors_on_drop {
            DropErrorPolicy::Panic
        } else if log_errors_on_drop {
            DropErrorPolicy::Log
        } else {
            DropErrorPolicy::Ignore
        }),
{
    if log_errors_on_drop && panic_errors_on_drop {
        Err(CustomError { code: POLICY_CONFLICT })
    } else if panic_errors_on_drop {
        Ok(DropErrorPolicy::Panic)
    } else if log_errors_on_drop {
        Ok(DropErrorPolicy::Log)
    } else {
        Ok(DropErrorPolicy::Ignore)
    }
}

} // verus!
