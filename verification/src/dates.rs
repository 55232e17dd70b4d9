//! Decimal formatting of years and calendar dates.
//!
//! Query dates are rendered as `YYYY-MM-DD`: the year without padding, month
//! and day zero-padded to two digits, exactly as the historical archive
//! expects them.

use vstd::prelude::*;
use vstd::string::*;

verus! {

/// The decimal digit character for a value between 0 and 9.
pub open spec fn digit_char(d: int) -> char {
    if d == 0 {
        '0'
    } else if d == 1 {
        '1'
    } else if d == 2 {
        '2'
    } else if d == 3 {
        '3'
    } else if d == 4 {
        '4'
    } else if d == 5 {
        '5'
    } else if d == 6 {
        '6'
    } else if d == 7 {
        '7'
    } else if d == 8 {
        '8'
    } else {
        '9'
    }
}

/// The decimal digits of a non-negative number, most significant first,
/// without leading zeros (a single `'0'` for zero).
pub open spec fn dec_digits(n: int) -> Seq<char>
    decreases n,
{
    if n < 10 {
        seq![digit_char(n)]
    } else {
        dec_digits(n / 10).push(digit_char(n % 10))
    }
}

/// A number below 100 rendered as exactly two digits, zero-padded.
pub open spec fn two_digits(n: int) -> Seq<char> {
    seq![digit_char(n / 10), digit_char(n % 10)]
}

/// A date rendered as `YYYY-MM-DD` (year unpadded, month and day two digits).
pub open spec fn date_chars(year: int, month: int, day: int) -> Seq<char> {
    dec_digits(year) + seq!['-'] + two_digits(month) + seq!['-'] + two_digits(day)
}

fn digit_str(d: u32) -> (s: &'static str)
    requires
        d < 10,
    ensures
        s@ =~= seq![digit_char(d as int)],
{
    proof {
        reveal_strlit("0");
        reveal_strlit("1");
        reveal_strlit("2");
        reveal_strlit("3");
        reveal_strlit("4");
        reveal_strlit("5");
        reveal_strlit("6");
        reveal_strlit("7");
        reveal_strlit("8");
        reveal_strlit("9");
    }
    if d == 0 {
        "0"
    } else if d == 1 {
        "1"
    } else if d == 2 {
        "2"
    } else if d == 3 {
        "3"
    } else if d == 4 {
        "4"
    } else if d == 5 {
        "5"
    } else if d == 6 {
        "6"
    } else if d == 7 {
        "7"
    } else if d == 8 {
        "8"
    } else {
        "9"
    }
}

/// Renders a number in decimal, most significant digit first.
pub fn format_u32(n: u32) -> (s: String)
    ensures
        s@ =~= dec_digits(n as int),
    decreases n,
{
    if n < 10 {
        digit_str(n).to_owned()
    } else {
        let mut s = format_u32(n / 10);
        s.append(digit_str(n % 10));
        proof {
            assert(s@ =~= dec_digits(n as int));
        }
        s
    }
}

/// Renders a number below 100 as exactly two digits, zero-padded.
pub fn format_two_digits(n: u32) -> (s: String)
    requires
        n < 100,
    ensures
        s@ =~= two_digits(n as int),
{
    let mut s = digit_str(n / 10).to_owned();
    s.append(digit_str(n % 10));
    s
}

/// Renders a query date as `YYYY-MM-DD`.
pub fn format_date(year: i32, month: u8, day: u8) -> (s: String)
    requires
        0 <= year,
        month < 100,
        day < 100,
    ensures
        s@ =~= date_chars(year as int, month as int, day as int),
{
    proof {
        reveal_strlit("-");
    }
    let mut s = format_u32(year as u32);
    s.append("-");
    let mm = format_two_digits(month as u32);
    s.append(mm.as_str());
    s.append("-");
    let dd = format_two_digits(day as u32);
    s.append(dd.as_str());
    s
}

} // verus!
