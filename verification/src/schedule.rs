//! The historical-year sampling schedule.
//!
//! For a given current year `y`, the schedule starts at
//! `1940 + ((y - 1) % 10)` and steps forward by five years for as long as the
//! year stays at most `y - 1`.  The offset makes the starting year stable
//! across calendar-decade boundaries, and 1940 is the earliest year with
//! reliable archive data.

use vstd::arithmetic::div_mod::{
    lemma_fundamental_div_mod, lemma_fundamental_div_mod_converse_div,
};
use vstd::prelude::*;

verus! {

/// First year of the schedule for the given current year.
pub open spec fn schedule_start(current_year: int) -> int {
    1940 + (current_year - 1) % 10
}

/// Number of years in the schedule for the given current year.
pub open spec fn schedule_len(current_year: int) -> int {
    if schedule_start(current_year) <= current_year - 1 {
        (current_year - 1 - schedule_start(current_year)) / 5 + 1
    } else {
        0
    }
}

/// The schedule itself: evenly spaced years, five apart, starting at
/// `schedule_start` and never later than `current_year - 1`.
pub open spec fn schedule_years(current_year: int) -> Seq<int> {
    Seq::new(schedule_len(current_year) as nat, |i: int| schedule_start(current_year) + 5 * i)
}

/// The schedule is strictly increasing in steps of five, starts at
/// `1940 + ((current_year - 1) % 10)`, every year lies between 1940 and
/// `current_year - 1`, and stepping once more would pass `current_year - 1`.
pub proof fn lemma_schedule_shape(current_year: int)
    requires
        1 <= current_year <= 9999,
    ensures
        0 <= schedule_len(current_year),
        schedule_years(current_year).len() == schedule_len(current_year),
        forall|i: int, j: int|
            0 <= i < j < schedule_len(current_year) ==> schedule_years(current_year)[i]
                < schedule_years(current_year)[j],
        forall|i: int|
            1 <= i < schedule_len(current_year) ==> #[trigger] schedule_years(current_year)[i]
                == schedule_years(current_year)[i - 1] + 5,
        schedule_len(current_year) > 0 ==> schedule_years(current_year)[0] == schedule_start(
            current_year,
        ),
        forall|i: int|
            0 <= i < schedule_len(current_year) ==> 1940 <= #[trigger] schedule_years(
                current_year,
            )[i] <= current_year - 1,
        schedule_len(current_year) > 0 ==> schedule_years(current_year).last() + 5 > current_year
            - 1,
        schedule_len(current_year) > 0 <==> schedule_start(current_year) <= current_year - 1,
{
    let start = schedule_start(current_year);
    assert(0 <= (current_year - 1) % 10 < 10);
    if start <= current_year - 1 {
        let d = current_year - 1 - start;
        let n = schedule_len(current_year);
        assert(n == d / 5 + 1);
        lemma_fundamental_div_mod(d, 5);
        assert(d == 5 * (d / 5) + d % 5);
        assert(forall|i: int, j: int| 0 <= i < j ==> #[trigger] (5 * i) < #[trigger] (5 * j))
            by (nonlinear_arith);
        assert(forall|i: int|
            0 <= i < n ==> #[trigger] schedule_years(current_year)[i] == start + 5 * i);
        assert(schedule_years(current_year).last() == start + 5 * (n - 1));
        assert(forall|i: int| 0 <= i < n ==> #[trigger] (5 * i) <= 5 * (n - 1))
            by (nonlinear_arith);
    }
}

/// Builds the historical sampling schedule for the given current year.
pub fn historical_years(current_year: i32) -> (years: Vec<i32>)
    requires
        1 <= current_year <= 9999,
    ensures
        years@.len() == schedule_len(current_year as int),
        forall|i: int|
            0 <= i < years@.len() ==> years@[i] == schedule_years(current_year as int)[i],
{
    let start: i32 = 1940 + (current_year - 1) % 10;
    assert(start == schedule_start(current_year as int));
    let mut years: Vec<i32> = Vec::new();
    let mut y: i32 = start;
    while y <= current_year - 1
        invariant
            1 <= current_year <= 9999,
            start == schedule_start(current_year as int),
            1940 <= start <= 1949,
            y == start + 5 * years@.len(),
            years@.len() > 0 ==> y <= current_year - 1 + 5,
            forall|i: int| 0 <= i < years@.len() ==> years@[i] == start + 5 * i,
        decreases current_year + 5 - y,
    {
        years.push(y);
        y = y + 5;
    }
    proof {
        let n = years@.len() as int;
        if start <= current_year - 1 {
            let d = current_year - 1 - start;
            assert(5 * (n - 1) <= d < 5 * n);
            lemma_fundamental_div_mod_converse_div(d, 5, n - 1, d - 5 * (n - 1));
            assert(n - 1 == d / 5);
        } else {
            assert(n == 0);
        }
        assert(n == schedule_len(current_year as int));
    }
    years
}

} // verus!
