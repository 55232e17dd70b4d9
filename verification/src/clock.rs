//! The request's processing date.
//!
//! "Today" anchors the sampling schedule and the queried month and day.  The
//! clock decides the year, so nothing is promised of it beyond what the
//! accessors document; the verified `accept_date` holds the decision to keep
//! or drop what the clock returned.

use chrono::Datelike;
use vstd::prelude::*;

verus! {

/// Relies on chrono's `From<SystemTime>` conversion for `DateTime<Utc>`,
/// which accepts times before the Unix epoch as well, together with the
/// `Datelike` accessors `year`, `month` and `day`: `month` ranges over
/// 1..=12 and `day` over 1..=31, as their documentation states.  Nothing is
/// promised of the year: the clock decides it.
#[verifier::external_body]
fn utc_today() -> (r: (i32, u32, u32))
    ensures
        1 <= r.1 <= 12,
        1 <= r.2 <= 31,
{
    let now = chrono::DateTime::<chrono::Utc>::from(std::time::SystemTime::now());
    (now.year(), now.month(), now.day())
}

/// Keeps a clock reading exactly when its year lies in the range that the
/// schedule and the `YYYY-MM-DD` date format accept, and drops it otherwise.
pub fn accept_date(year: i32, month: u32, day: u32) -> (r: Option<(i32, u8, u8)>)
    requires
        1 <= month <= 12,
        1 <= day <= 31,
    ensures
        1 <= year <= 9999 ==> r == Some((year, month as u8, day as u8)),
        !(1 <= year <= 9999) ==> r is None,
{
    if 1 <= year && year <= 9999 {
        Some((year, month as u8, day as u8))
    } else {
        None
    }
}

/// Reads today's date from the clock and applies `accept_date` to it:
/// whatever the clock returned, a kept year lies in 1..=9999, a kept month
/// in 1..=12 and a kept day in 1..=31.
pub fn current_date() -> (r: Option<(i32, u8, u8)>)
    ensures
        match r {
            Some(d) => 1 <= d.0 <= 9999 && 1 <= d.1 <= 12 && 1 <= d.2 <= 31,
            None => true,
        },
{
    let (y, m, d) = utc_today();
    accept_date(y, m, d)
}

} // verus!
