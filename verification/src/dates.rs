//! Calendar support. Dates travel through the engine as `"%m/%d/%y"` strings,
//! exactly as the tracker and the persisted snapshots carry them; the chrono
//! crate turns such a string into a day number (days since the common era),
//! and every date computation in the crate is integer arithmetic on day
//! numbers.

use vstd::prelude::*;

verus! {

/// What chrono makes of a `"%m/%d/%y"` string: `Some(day number)` when the
/// string is a well-formed date, `None` otherwise. The result depends on the
/// characters alone.
pub uninterp spec fn day_number_of(s: Seq<char>) -> Option<int>;

/// What chrono makes of a `"%m/%d/%Y"` (four-digit year) string, as
/// `day_number_of`.
pub uninterp spec fn day_number_long_of(s: Seq<char>) -> Option<int>;

/// Relies on chrono's `NaiveDate::parse_from_str` with the `"%m/%d/%y"`
/// format, and on `Datelike::num_days_from_ce` to read the parsed date out as
/// a plain day count (an `i32`).
#[verifier::external_body]
pub fn parse_day_number(s: &str) -> (r: Option<i64>)
    ensures
        r is Some <==> day_number_of(s@) is Some,
        r matches Some(d) ==> day_number_of(s@) == Some(d as int) && -0x8000_0000 <= d
            < 0x8000_0000,
{
    match chrono::NaiveDate::parse_from_str(s, "%m/%d/%y") {
        Ok(d) => Some(chrono::Datelike::num_days_from_ce(&d) as i64),
        Err(_) => None,
    }
}

/// Relies on chrono's `NaiveDate::parse_from_str` with the `"%m/%d/%Y"`
/// format, and on `Datelike::num_days_from_ce`, as `parse_day_number`.
#[verifier::external_body]
pub fn parse_day_number_long(s: &str) -> (r: Option<i64>)
    ensures
        r is Some <==> day_number_long_of(s@) is Some,
        r matches Some(d) ==> day_number_long_of(s@) == Some(d as int) && -0x8000_0000 <= d
            < 0x8000_0000,
{
    match chrono::NaiveDate::parse_from_str(s, "%m/%d/%Y") {
        Ok(d) => Some(chrono::Datelike::num_days_from_ce(&d) as i64),
        Err(_) => None,
    }
}

/// Relies on chrono's `Local::now` and chrono-tz's Pacific zone: the current
/// date in the zone the sprints are tracked in, formatted `"%m/%d/%y"`. The
/// clock decides the result, so nothing is claimed of it.
#[verifier::external_body]
pub fn current_date() -> (r: String) {
    let now = chrono::Local::now().with_timezone(&chrono_tz::US::Pacific);
    now.format("%m/%d/%y").to_string()
}

/// Day difference `future - past` of two `"%m/%d/%y"` strings; `None` when
/// either fails to parse.
pub fn days_between_strs(past: &str, future: &str) -> (r: Option<i64>)
    ensures
        r is Some <==> day_number_of(past@) is Some && day_number_of(future@) is Some,
        r matches Some(d) ==> day_number_of(past@) matches Some(p)
            && day_number_of(future@) matches Some(f) && d == f - p,
{
    let past_day = parse_day_number(past);
    let future_day = parse_day_number(future);
    match (past_day, future_day) {
        (Some(p), Some(f)) => Some(f - p),
        _ => None,
    }
}

/// Day difference against an explicit past date, or against today where none
/// is given; in the latter case the clock chooses the minuend, so only the
/// explicit case is pinned down.
pub fn days_between(past: Option<&str>, future: &str) -> (r: Option<i64>)
    ensures
        past matches Some(p) ==> (r is Some <==> day_number_of(p@) is Some && day_number_of(
            future@,
        ) is Some),
        past matches Some(p) ==> (r matches Some(d) ==> day_number_of(p@) matches Some(pd)
            && day_number_of(future@) matches Some(fd) && d == fd - pd),
        r is Some ==> day_number_of(future@) is Some,
{
    match past {
        Some(p) => days_between_strs(p, future),
        None => {
            let today = current_date();
            days_between_strs(today.as_str(), future)
        },
    }
}

} // verus!
