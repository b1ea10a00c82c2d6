//! The cluster's clock.

use vstd::prelude::*;

use pinocchio::sysvars::clock::Clock;
use pinocchio::sysvars::Sysvar;

use crate::error::ProgramError;

verus! {

/// Reads the cluster's clock with pinocchio's `Clock::get` (a read of the
/// clock sysvar through the runtime) and gives its unix timestamp; a failed
/// read comes back as `ProgramError::Runtime` with the runtime's code for the
/// error. The value depends on the cluster and on when the program runs, so
/// nothing is promised of it but that a failure is a `Runtime` error; off the
/// cluster the read fails.
#[verifier::external_body]
pub(crate) fn clock_unix_timestamp() -> (r: Result<i64, ProgramError>)
    ensures
        r matches Err(e) ==> e is Runtime,
{
    match Clock::get() {
        Ok(clock) => Ok(clock.unix_timestamp),
        Err(e) => Err(ProgramError::Runtime(u64::from(e))),
    }
}

} // verus!
