//! The clock that readings and commands are stamped with.

use vstd::prelude::*;

verus! {

/// The tick count of `embassy_time::Instant::now()`, read with `as_ticks`.
/// Nothing is claimed of the count: it is whatever the time driver says.
#[verifier::external_body]
pub(crate) fn now_ticks() -> (ticks: u64) {
    embassy_time::Instant::now().as_ticks()
}

} // verus!
