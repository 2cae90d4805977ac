//! The one place the library reads the clock.

use vstd::prelude::*;

verus! {

/// Relies on `std::time::SystemTime::now`: the milliseconds since the Unix
/// epoch, which depend on the clock and carry no further guarantee.
#[verifier::external_body]
pub(crate) fn now_epoch_millis() -> u64 {
    std::time::SystemTime::now().duration_since(std::time::UNIX_EPOCH).map(
        |d| d.as_millis() as u64,
    ).unwrap_or(0)
}

} // verus!
