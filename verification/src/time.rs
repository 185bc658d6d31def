//! Instants in UTC as seconds and nanoseconds since the Unix epoch, and
//! what chrono computes of them.
use vstd::prelude::*;
use chrono::{DateTime, Days, TimeDelta, Utc};

verus! {

/// An instant in UTC: `secs` seconds and `nanos` nanoseconds after
/// 1970-01-01T00:00:00Z, as `DateTime<Utc>` holds it.
#[derive(Clone, Copy, PartialEq, Eq, Debug)]
pub struct Timestamp {
    pub secs: i64,
    pub nanos: u32,
}

/// `a` is not later than `b`: the order of `DateTime<Utc>`.
pub open spec fn not_after(a: Timestamp, b: Timestamp) -> bool {
    a.secs < b.secs || (a.secs == b.secs && a.nanos <= b.nanos)
}

/// Whether `a` is not later than `b`.
pub fn is_not_after(a: Timestamp, b: Timestamp) -> (r: bool)
    ensures
        r == not_after(a, b),
{
    a.secs < b.secs || (a.secs == b.secs && a.nanos <= b.nanos)
}

/// An instant within 8 * 10^12 seconds (about 250,000 years) of the epoch,
/// outside a leap second: well inside the years -262143 to 262142 that
/// chrono's `DateTime<Utc>` holds, so that chrono gives it and computes
/// with it.
pub open spec fn in_chrono_range(secs: int, nanos: u32) -> bool {
    -8_000_000_000_000 <= secs <= 8_000_000_000_000 && nanos < 1_000_000_000
}

/// What chrono writes for `DateTime::from_timestamp(secs, nanos)` with
/// `to_rfc3339`, or `None` where chrono has no such instant.
pub uninterp spec fn rfc3339_text(secs: i64, nanos: u32) -> Option<Seq<char>>;

/// What chrono writes for `DateTime::from_timestamp(secs, nanos)` with
/// `format("%d/%m/%Y")`, or `None` where chrono has no such instant.
pub uninterp spec fn day_month_year_text(secs: i64, nanos: u32) -> Option<Seq<char>>;

pub open spec fn opt_text_view(o: Option<String>) -> Option<Seq<char>> {
    match o {
        Some(s) => Some(s@),
        None => None,
    }
}

/// `DateTime::from_timestamp` then `DateTime::to_rfc3339`; `None` where
/// `from_timestamp` gives none, which it does not for an instant in
/// chrono's range. The text itself is chrono's, named `rfc3339_text`.
#[verifier::external_body]
pub fn rfc3339(t: Timestamp) -> (r: Option<String>)
    ensures
        opt_text_view(r) == rfc3339_text(t.secs, t.nanos),
        in_chrono_range(t.secs as int, t.nanos) ==> r is Some,
{
    match DateTime::from_timestamp(t.secs, t.nanos) {
        Some(d) => Some(d.to_rfc3339()),
        None => None,
    }
}

/// `DateTime::from_timestamp` then `format("%d/%m/%Y")`; `None` where
/// `from_timestamp` gives none. The text is chrono's, named
/// `day_month_year_text`.
#[verifier::external_body]
pub fn day_month_year(t: Timestamp) -> (r: Option<String>)
    ensures
        opt_text_view(r) == day_month_year_text(t.secs, t.nanos),
{
    match DateTime::from_timestamp(t.secs, t.nanos) {
        Some(d) => Some(d.format("%d/%m/%Y").to_string()),
        None => None,
    }
}

/// `DateTime::<Utc>::checked_add_days(Days::new(days))`. In UTC a day is
/// 86400 seconds, so what it gives is the instant that many seconds later.
/// It gives it where the instant and the result are in chrono's range;
/// where chrono gives `None` near the ends of its range is not stated.
#[verifier::external_body]
pub fn add_days(t: Timestamp, days: u64) -> (r: Option<Timestamp>)
    ensures
        r matches Some(u) ==> u.secs == t.secs + 86400 * days && u.nanos == t.nanos,
        in_chrono_range(t.secs as int, t.nanos) && in_chrono_range(t.secs + 86400 * days, t.nanos)
            ==> r is Some,
{
    let d: Option<DateTime<Utc>> = DateTime::from_timestamp(t.secs, t.nanos);
    match d {
        Some(d) => match d.checked_add_days(Days::new(days)) {
            Some(u) => Some(Timestamp { secs: u.timestamp(), nanos: u.timestamp_subsec_nanos() }),
            None => None,
        },
        None => None,
    }
}

/// `TimeDelta::try_hours(hours)` then `DateTime::checked_sub_signed`: the
/// instant `hours` hours earlier. Of an instant in a leap second
/// (`nanos` of a second or more) nothing is stated, as chrono may move it
/// out of the leap second. It gives the instant where the instant and the
/// result are in chrono's range; where chrono gives `None` near the ends
/// of its range (of instants, or of `TimeDelta`) is not stated.
#[verifier::external_body]
pub fn sub_hours(t: Timestamp, hours: i64) -> (r: Option<Timestamp>)
    ensures
        t.nanos < 1_000_000_000 ==> (r matches Some(u) ==> u.secs == t.secs - 3600 * hours && u.nanos == t.nanos),
        in_chrono_range(t.secs as int, t.nanos) && in_chrono_range(t.secs - 3600 * hours, t.nanos)
            ==> r is Some,
{
    let d: Option<DateTime<Utc>> = DateTime::from_timestamp(t.secs, t.nanos);
    match (d, TimeDelta::try_hours(hours)) {
        (Some(d), Some(h)) => match d.checked_sub_signed(h) {
            Some(u) => Some(Timestamp { secs: u.timestamp(), nanos: u.timestamp_subsec_nanos() }),
            None => None,
        },
        _ => None,
    }
}

} // verus!
