//! Instants in UTC, held as plain integers, and the two calls into `chrono`
//! that the service needs: reading the clock and printing an instant.

use vstd::prelude::*;

verus! {

/// The last second that `chrono` can represent: 262142-12-31 23:59:59 UTC,
/// counted from the Unix epoch.
pub const MAX_UTC_SECS: i64 = 8_210_266_876_799i64;

/// Seconds in one minute.
pub const SECS_PER_MINUTE: i64 = 60i64;

/// Seconds in one day.
pub const SECS_PER_DAY: i64 = 86_400i64;

/// An instant in UTC: whole seconds since the Unix epoch and the nanoseconds
/// within that second (what `DateTime::<Utc>::timestamp` and
/// `DateTime::<Utc>::timestamp_subsec_nanos` give).
#[derive(Clone, Copy, Debug, PartialEq, Eq, Structural)]
pub struct Timestamp {
    pub secs: i64,
    pub nanos: u32,
}

/// `a` lies strictly before `b`.
pub open spec fn is_before(a: Timestamp, b: Timestamp) -> bool {
    a.secs < b.secs || (a.secs == b.secs && a.nanos < b.nanos)
}

/// `t` moved forward by `n` whole seconds.
pub open spec fn plus_secs(t: Timestamp, n: int) -> Timestamp {
    Timestamp { secs: (t.secs + n) as i64, nanos: t.nanos }
}

/// An instant that the clock can give: after the epoch, within `chrono`'s range,
/// and with its nanoseconds below one second.
pub open spec fn is_clock_reading(t: Timestamp) -> bool {
    0 <= t.secs <= MAX_UTC_SECS && t.nanos < 1_000_000_000
}

/// Whether `a` lies strictly before `b`.
pub fn before(a: Timestamp, b: Timestamp) -> (res: bool)
    ensures
        res == is_before(a, b),
{
    a.secs < b.secs || (a.secs == b.secs && a.nanos < b.nanos)
}

/// `t` moved forward by `n` whole seconds.
pub fn add_secs(t: Timestamp, n: i64) -> (res: Timestamp)
    requires
        0 <= n,
        t.secs + n <= i64::MAX,
    ensures
        res == plus_secs(t, n as int),
{
    Timestamp { secs: t.secs + n, nanos: t.nanos }
}

/// Reads the clock with `chrono::Utc::now`. `Utc::now` builds its result with
/// `DateTime::from_timestamp` from the time since the Unix epoch and unwraps it,
/// so what comes back is after the epoch, within `chrono`'s range and below one
/// second in its nanoseconds. Which instant comes back is not stated.
#[verifier::external_body]
pub(crate) fn now() -> (res: Timestamp)
    ensures
        is_clock_reading(res),
{
    let dt = chrono::Utc::now();
    Timestamp { secs: dt.timestamp(), nanos: dt.timestamp_subsec_nanos() }
}

/// The text that `chrono` prints for an instant (`Display` of `DateTime<Utc>`).
pub uninterp spec fn utc_display(secs: i64, nanos: u32) -> Seq<char>;

/// Prints an instant as `chrono`'s `Display` of `DateTime<Utc>` does, after
/// `DateTime::from_timestamp`; the text is named `utc_display` of the two
/// integers. For integers that `from_timestamp` refuses the text is empty,
/// which is not stated.
#[verifier::external_body]
pub(crate) fn utc_text(t: Timestamp) -> (res: String)
    ensures
        res@ == utc_display(t.secs, t.nanos),
{
    chrono::DateTime::from_timestamp(t.secs, t.nanos).map(|dt| dt.to_string()).unwrap_or_default()
}

} // verus!
