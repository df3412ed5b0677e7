//! What the library takes from the process around it: display identifiers and the time.

use vstd::prelude::*;

verus! {

/// `rust_webvr_api::utils::new_id` hands out the next value of a counter that
/// the whole process shares. Nothing is claimed of the number that comes back:
/// it depends on how many identifiers were taken before, by anyone.
pub assume_specification[ rust_webvr_api::utils::new_id ]() -> (id: u32)
;

/// The current time in milliseconds, as `rust_webvr_api::utils::timestamp`
/// reports it, in double precision. Nothing is claimed of the value: it is
/// read from the system clock.
#[verifier::external_body]
pub(crate) fn timestamp() -> (now: u64) {
    rust_webvr_api::utils::timestamp().to_bits()
}

} // verus!
