use vstd::prelude::*;

verus! {

/// Relies on chrono's `From<SystemTime> for DateTime<Utc>` and
/// `DateTime::timestamp_micros`: the system clock's reading as microseconds
/// since the Unix epoch, negative for a clock set before it. Nothing is
/// promised of the reading. (The conversion only fails on a clock set outside
/// chrono's range of some 262,000 years around the epoch.)
#[verifier::external_body]
pub(crate) fn now_micros() -> (r: i64) {
    chrono::DateTime::<chrono::Utc>::from(std::time::SystemTime::now()).timestamp_micros()
}

} // verus!
