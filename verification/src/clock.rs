use vstd::prelude::*;

verus! {

/// Relies on chrono's `Utc::now`: the present moment in milliseconds since
/// the Unix epoch. The clock is outside anyone's control, so nothing is
/// promised of the value.
#[verifier::external_body]
pub fn now_utc_millis() -> i64 {
    chrono::Utc::now().timestamp_millis()
}

} // verus!
