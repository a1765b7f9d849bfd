//! The trusted boundary around the system clock.

use vstd::prelude::*;

verus! {

#[verifier::external_type_specification]
#[verifier::external_body]
pub struct ExSystemTime(std::time::SystemTime);

#[verifier::external_type_specification]
#[verifier::external_body]
pub struct ExSystemTimeError(std::time::SystemTimeError);

/// Relies on `std::time::SystemTime::now`: the wall clock, of which
/// nothing is assumed.
#[verifier::external_body]
pub(crate) fn system_now() -> std::time::SystemTime {
    std::time::SystemTime::now()
}

/// Relies on `SystemTime::duration_since` against `UNIX_EPOCH`: the time
/// elapsed since the epoch, or an error when the clock reads earlier.
#[verifier::external_body]
pub(crate) fn since_epoch(t: &std::time::SystemTime) -> Result<
    core::time::Duration,
    std::time::SystemTimeError,
> {
    t.duration_since(std::time::UNIX_EPOCH)
}

/// Relies on `core::time::Duration::as_secs`: the whole seconds of the
/// duration.
#[verifier::external_body]
pub(crate) fn duration_secs(d: &core::time::Duration) -> u64 {
    d.as_secs()
}

} // verus!
