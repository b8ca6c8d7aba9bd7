//! The wall clock.

use vstd::prelude::*;

use crate::model::{clock_reading, Timestamp};

verus! {

/// The system clock (`std::time::SystemTime::now`) converted by chrono's
/// `From<SystemTime> for DateTime<Utc>`, taken as its Unix timestamp
/// (`timestamp`) and the nanoseconds past that second
/// (`timestamp_subsec_nanos`). The value depends on the clock; what is
/// stated holds of every result, as chrono's source builds it: a reading
/// before 1970 becomes a negative timestamp with nanoseconds in 0..10^9
/// (no leap second is produced), and the date lies within chrono's range of
/// years (-262143 to 262142), so the seconds lie far within +-10^13. The
/// conversion unwraps chrono's range check, so it would panic only on a
/// clock that reads a date outside that range of about 262,000 years.
#[verifier::external_body]
pub(crate) fn current_time() -> (t: Timestamp)
    ensures
        clock_reading(t),
{
    let now = chrono::DateTime::<chrono::Utc>::from(std::time::SystemTime::now());
    Timestamp { secs: now.timestamp(), nanos: now.timestamp_subsec_nanos() }
}

} // verus!
