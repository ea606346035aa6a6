//! The wall clock.

use crate::models::type_aliases::Timestamp;
use vstd::prelude::*;

verus! {

/// Reads the current time with chrono's `Utc::now` and hands it back as
/// microseconds since 1970-01-01 00:00:00. Nothing is promised of the value:
/// it is whatever the machine's clock says, and of two readings the second
/// may be the earlier. chrono panics where the clock is set before 1970.
#[verifier::external_body]
pub(crate) fn now() -> Timestamp {
    chrono::Utc::now().naive_local().and_utc().timestamp_micros()
}

} // verus!
