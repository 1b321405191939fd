use vstd::prelude::*;

verus! {

/// The current time as chrono gives it: `chrono::Utc::now`, taken apart into
/// whole seconds since the Unix epoch (`DateTime::timestamp`) and the
/// nanoseconds past that second (`DateTime::timestamp_subsec_nanos`).
///
/// Nothing is promised of the values: they are whatever the clock says, and
/// two calls may give anything. chrono panics where the system clock stands
/// before 1970.
#[verifier::external_body]
fn clock_now() -> (i64, u32) {
    let now = chrono::Utc::now();
    (now.timestamp(), now.timestamp_subsec_nanos())
}

/// The instant `secs` seconds and `nanos` nanoseconds after the Unix epoch, in
/// nanoseconds.
pub open spec fn spec_nanos(secs: i64, nanos: u32) -> int {
    secs * 1_000_000_000 + nanos
}

/// The instant given by whole seconds and nanoseconds, in nanoseconds since
/// the Unix epoch.
pub fn instant_nanos(secs: i64, nanos: u32) -> (res: i128)
    ensures
        res == spec_nanos(secs, nanos),
{
    secs as i128 * 1_000_000_000i128 + nanos as i128
}

/// The current time in nanoseconds since the Unix epoch, at the full
/// precision of chrono's clock. What the clock says is not promised.
pub(crate) fn now_nanos() -> i128 {
    let (secs, nanos) = clock_now();
    instant_nanos(secs, nanos)
}

} // verus!
