//! Points in time and calendar days, held as plain numbers.
use vstd::prelude::*;

verus! {

/// Seconds in one day.
pub const SECS_PER_DAY: i64 = 86400;

/// A UTC instant, as whole seconds since 1970-01-01T00:00:00.
#[derive(Clone, Copy, Debug, PartialEq, Eq, Structural)]
pub struct Timestamp {
    pub secs: i64,
}

/// A UTC calendar day, as whole days since 1970-01-01.
#[derive(Clone, Copy, Debug, PartialEq, Eq, Structural)]
pub struct Date {
    pub days: i64,
}

/// The day on which an instant falls (floor division).
pub open spec fn day_of(secs: int) -> int {
    secs / (SECS_PER_DAY as int)
}

/// The calendar day of `t`.
pub fn date_of(t: Timestamp) -> (d: Date)
    ensures
        d.days == day_of(t.secs as int),
{
    if t.secs >= 0 {
        let q = t.secs / SECS_PER_DAY;
        assert(q == day_of(t.secs as int)) by (nonlinear_arith)
            requires t.secs >= 0, q == t.secs / 86400;
        Date { days: q }
    } else {
        // For a negative instant the day is one before the truncated quotient
        // of the instant moved one second later.
        let p: i64 = -(t.secs + 1);
        let q = p / SECS_PER_DAY;
        let d = -q - 1;
        assert(d == day_of(t.secs as int)) by (nonlinear_arith)
            requires t.secs < 0, p == -(t.secs + 1), q == p / 86400, d == -q - 1;
        Date { days: d }
    }
}

/// What chrono's "%Y-%m-%d %H:%M:%S" rendering gives for an instant, or
/// `None` where chrono cannot represent it.
pub uninterp spec fn datetime_text(secs: int) -> Option<Seq<char>>;

/// What chrono's "%Y-%m-%d" rendering gives for a day, or `None` where
/// chrono cannot represent it.
pub uninterp spec fn date_text(days: int) -> Option<Seq<char>>;

/// Relies on chrono::Utc::now and DateTime::timestamp: the current instant.
/// `Utc::now` panics on a system clock before 1970 and otherwise counts
/// whole seconds since then, so the instant is never negative.
#[verifier::external_body]
pub(crate) fn clock_now() -> (t: Timestamp)
    ensures
        t.secs >= 0,
{
    Timestamp { secs: chrono::Utc::now().timestamp() }
}

/// Relies on chrono::DateTime::from_timestamp and its "%Y-%m-%d %H:%M:%S"
/// format: the text depends on the instant alone.
#[verifier::external_body]
pub(crate) fn format_datetime(secs: i64) -> (r: Option<String>)
    ensures
        r is Some <==> datetime_text(secs as int) is Some,
        r is Some ==> r->0@ == datetime_text(secs as int)->0,
{
    match chrono::DateTime::from_timestamp(secs, 0) {
        Some(dt) => Some(dt.format("%Y-%m-%d %H:%M:%S").to_string()),
        None => None,
    }
}

/// Relies on chrono::NaiveDate::from_epoch_days and its "%Y-%m-%d" format:
/// the text depends on the day alone.
#[verifier::external_body]
pub(crate) fn format_date(days: i64) -> (r: Option<String>)
    ensures
        r is Some <==> date_text(days as int) is Some,
        r is Some ==> r->0@ == date_text(days as int)->0,
{
    match i32::try_from(days).ok().and_then(chrono::NaiveDate::from_epoch_days) {
        Some(d) => Some(d.format("%Y-%m-%d").to_string()),
        None => None,
    }
}

} // verus!
