//! The crate's trusted boundary to the clock, the system time zone and
//! the user's config directory. Each wrapper makes one outside call and
//! converts its result to plain values; everything computed from those
//! values is verified elsewhere.

use vstd::prelude::*;

verus! {

/// Relies on jiff's `Timestamp::now`: the current instant, as whole Unix
/// seconds. jiff keeps timestamps between the bounds stated here (year
/// -9999 to year 9999); nothing else can be promised of a clock reading.
/// `Timestamp::now` itself aborts on a machine clock set outside that
/// range; the wrapper takes no input by which to exclude such a machine.
#[verifier::external_body]
pub(crate) fn now_unix_seconds() -> (t: i64)
    ensures
        crate::model::TIMESTAMP_MIN <= t <= crate::model::TIMESTAMP_MAX,
{
    jiff::Timestamp::now().as_second()
}

/// Relies on jiff's `TimeZone::system` and `TimeZone::to_offset`: the
/// system zone's UTC offset at the given instant, in seconds. jiff keeps
/// offsets within ±25:59:59 (±93599 seconds); which offset comes back
/// depends on the machine's zone database, so nothing more is promised.
#[verifier::external_body]
pub(crate) fn system_utc_offset(at_unix: i64) -> (off: i32)
    requires
        crate::model::TIMESTAMP_MIN <= at_unix <= crate::model::TIMESTAMP_MAX,
    ensures
        -93599 <= off <= 93599,
{
    let ts = jiff::Timestamp::from_second(at_unix).unwrap_or(jiff::Timestamp::UNIX_EPOCH);
    jiff::tz::TimeZone::system().to_offset(ts).seconds()
}

/// Relies on dirs' `config_dir`: the user's configuration directory, if
/// the platform defines one. The answer depends on the environment, so
/// nothing is promised about its value.
#[verifier::external_body]
pub(crate) fn config_base_dir() -> (d: Option<String>) {
    dirs::config_dir().map(|p| p.to_string_lossy().into_owned())
}

} // verus!
