//! Reading the current instant.

use vstd::prelude::*;

verus! {

/// Relies on chrono's `Utc::now` and `DateTime::timestamp_micros`: the
/// current UTC instant, in microseconds since the Unix epoch. Nothing
/// is promised of the value; the callers state what holds of every
/// reading, and monotonicity is assumed nowhere.
#[verifier::external_body]
pub(crate) fn now_micros() -> i64 {
    chrono::Utc::now().timestamp_micros()
}

} // verus!
