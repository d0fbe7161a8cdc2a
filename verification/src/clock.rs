//! The wall clock.

use vstd::prelude::*;

verus! {

/// Seconds since the Unix epoch: std's `SystemTime::now`, turned into a
/// chrono `DateTime<Utc>` by chrono's `From<SystemTime>` and read with
/// `timestamp`. The conversion takes readings before the epoch as negative
/// seconds rather than failing; it fails only for a reading beyond chrono's
/// range of about 262,000 years around the epoch, which no system clock can
/// hold. The value depends on the clock, so nothing is stated of it.
#[verifier::external_body]
pub(crate) fn unix_now() -> i64 {
    chrono::DateTime::<chrono::Utc>::from(std::time::SystemTime::now()).timestamp()
}

} // verus!
