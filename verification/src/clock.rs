//! The boundary to the system clock, read through `chrono`.

use vstd::prelude::*;

verus! {

/// The current time in microseconds since the Unix epoch: the system time,
/// converted by `chrono` (`DateTime::<Utc>::from`) and read with
/// `DateTime::timestamp_micros`. Nothing is claimed of the value: two
/// readings need not even be in order. `chrono` refuses a system time
/// outside its calendar, some 262 000 years either side of 1970.
#[verifier::external_body]
pub(crate) fn now_micros() -> i64 {
    let now: chrono::DateTime<chrono::Utc> = std::time::SystemTime::now().into();
    now.timestamp_micros()
}

} // verus!
