use vstd::prelude::*;

use std::time::SystemTimeError;

verus! {

#[verifier::external_type_specification]
#[verifier::external_body]
pub struct ExSystemTimeError(SystemTimeError);

/// Relies on `std::time::SystemTime::now` and `duration_since(UNIX_EPOCH)`:
/// whole seconds since the Unix epoch, or an error when the clock is earlier.
#[verifier::external_body]
pub(crate) fn unix_time_secs() -> (r: Result<u64, SystemTimeError>) {
    std::time::SystemTime::now().duration_since(std::time::UNIX_EPOCH).map(|d| d.as_secs())
}

} // verus!
