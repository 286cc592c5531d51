//! Date normalization: parsing of the two accepted date literal forms and
//! rendering of dates back into text.
//!
//! A date literal is either a combined form `YYYY-MM-DDThh:mm:ss` or a bare
//! form `YYYY-MM-DD`, both fixed-width with zero-padded decimal fields. The
//! combined form is accepted only when its time-of-day fields are in range;
//! either form is accepted only when the calendar fields name a real day of
//! the proleptic Gregorian calendar.

use vstd::prelude::*;

use crate::error::ParsingError;
use crate::strutil::digit_val;
use crate::strutil::is_digit_char;
use crate::strutil::pad2_digits;
use crate::strutil::pad4_digits;
use crate::strutil::pad2_string;
use crate::strutil::pad4_string;

verus! {

/// A calendar date, held as plain year, month and day numbers.
#[derive(Debug, Clone, Copy, PartialEq, Eq, Structural)]
pub struct Date {
    pub year: u16,
    pub month: u8,
    pub day: u8,
}

pub open spec fn is_leap_year(y: int) -> bool {
    y % 4 == 0 && (y % 100 != 0 || y % 400 == 0)
}

pub open spec fn days_in_month(y: int, m: int) -> int {
    if m == 4 || m == 6 || m == 9 || m == 11 {
        30
    } else if m == 2 {
        if is_leap_year(y) {
            29
        } else {
            28
        }
    } else {
        31
    }
}

/// A well-formed date names a real day and fits the four-digit year rendering.
pub open spec fn date_wf(d: Date) -> bool {
    &&& d.year <= 9999
    &&& 1 <= d.month <= 12
    &&& 1 <= d.day <= days_in_month(d.year as int, d.month as int)
}

/// Shape of the bare form: ten characters `YYYY-MM-DD`.
pub open spec fn date_digits_ok(s: Seq<char>) -> bool {
    &&& s.len() == 10
    &&& is_digit_char(s[0])
    &&& is_digit_char(s[1])
    &&& is_digit_char(s[2])
    &&& is_digit_char(s[3])
    &&& s[4] == '-'
    &&& is_digit_char(s[5])
    &&& is_digit_char(s[6])
    &&& s[7] == '-'
    &&& is_digit_char(s[8])
    &&& is_digit_char(s[9])
}

pub open spec fn date_year(s: Seq<char>) -> int {
    digit_val(s[0]) * 1000 + digit_val(s[1]) * 100 + digit_val(s[2]) * 10 + digit_val(s[3])
}

pub open spec fn date_month(s: Seq<char>) -> int {
    digit_val(s[5]) * 10 + digit_val(s[6])
}

pub open spec fn date_day(s: Seq<char>) -> int {
    digit_val(s[8]) * 10 + digit_val(s[9])
}

/// The date denoted by a bare literal, when it is well shaped and names a
/// real calendar day.
pub open spec fn spec_parse_bare_date(s: Seq<char>) -> Option<Date> {
    if date_digits_ok(s) {
        if 1 <= date_month(s) <= 12 && 1 <= date_day(s) <= days_in_month(
            date_year(s),
            date_month(s),
        ) {
            Some(
                Date {
                    year: date_year(s) as u16,
                    month: date_month(s) as u8,
                    day: date_day(s) as u8,
                },
            )
        } else {
            None
        }
    } else {
        None
    }
}

/// Shape of the time suffix of the combined form: `Thh:mm:ss` at columns
/// ten through eighteen.
pub open spec fn time_digits_ok(s: Seq<char>) -> bool {
    &&& s.len() == 19
    &&& s[10] == 'T'
    &&& is_digit_char(s[11])
    &&& is_digit_char(s[12])
    &&& s[13] == ':'
    &&& is_digit_char(s[14])
    &&& is_digit_char(s[15])
    &&& s[16] == ':'
    &&& is_digit_char(s[17])
    &&& is_digit_char(s[18])
}

pub open spec fn time_vals_ok(s: Seq<char>) -> bool {
    &&& digit_val(s[11]) * 10 + digit_val(s[12]) <= 23
    &&& digit_val(s[14]) * 10 + digit_val(s[15]) <= 59
    &&& digit_val(s[17]) * 10 + digit_val(s[18]) <= 59
}

/// The date denoted by a date literal: the combined form is tried first, the
/// bare form second, and anything else denotes no date.
pub open spec fn spec_parse_date(s: Seq<char>) -> Option<Date> {
    if s.len() == 19 {
        if time_digits_ok(s) && time_vals_ok(s) {
            spec_parse_bare_date(s.subrange(0, 10))
        } else {
            None
        }
    } else {
        spec_parse_bare_date(s)
    }
}

/// The ten-character rendering `YYYY-MM-DD` of a date.
pub open spec fn date_str_spec(d: Date) -> Seq<char> {
    pad4_digits(d.year as int) + seq!['-'] + pad2_digits(d.month as int) + seq!['-']
        + pad2_digits(d.day as int)
}

/// The four-character month-day token `MMDD` of a date.
pub open spec fn mmdd_spec(d: Date) -> Seq<char> {
    pad2_digits(d.month as int) + pad2_digits(d.day as int)
}

fn digit_of(c: char) -> (r: u32)
    requires
        is_digit_char(c),
    ensures
        r == digit_val(c),
        r <= 9,
{
    c as u32 - 48
}

fn is_digit(c: char) -> (r: bool)
    ensures
        r == is_digit_char(c),
{
    '0' <= c && c <= '9'
}

fn days_in_month_exec(y: u32, m: u32) -> (r: u32)
    ensures
        r == days_in_month(y as int, m as int),
{
    if m == 4 || m == 6 || m == 9 || m == 11 {
        30
    } else if m == 2 {
        if y % 4 == 0 && (y % 100 != 0 || y % 400 == 0) {
            29
        } else {
            28
        }
    } else {
        31
    }
}

/// Reads the `YYYY-MM-DD` fields standing at the start of `s`, whose first
/// ten characters are exactly the view `t`.
fn parse_ymd(s: &str, Ghost(t): Ghost<Seq<char>>) -> (r: Option<Date>)
    requires
        s@.len() >= 10,
        t == s@.subrange(0, 10),
    ensures
        r == spec_parse_bare_date(t),
{
    let c0 = s.get_char(0);
    let c1 = s.get_char(1);
    let c2 = s.get_char(2);
    let c3 = s.get_char(3);
    let c4 = s.get_char(4);
    let c5 = s.get_char(5);
    let c6 = s.get_char(6);
    let c7 = s.get_char(7);
    let c8 = s.get_char(8);
    let c9 = s.get_char(9);
    proof {
        assert(t.len() == 10);
        assert(t[0] == c0 && t[1] == c1 && t[2] == c2 && t[3] == c3 && t[4] == c4);
        assert(t[5] == c5 && t[6] == c6 && t[7] == c7 && t[8] == c8 && t[9] == c9);
    }
    if !(is_digit(c0) && is_digit(c1) && is_digit(c2) && is_digit(c3) && c4 == '-' && is_digit(c5)
        && is_digit(c6) && c7 == '-' && is_digit(c8) && is_digit(c9)) {
        return None;
    }
    let y: u32 = digit_of(c0) * 1000 + digit_of(c1) * 100 + digit_of(c2) * 10 + digit_of(c3);
    let m: u32 = digit_of(c5) * 10 + digit_of(c6);
    let d: u32 = digit_of(c8) * 10 + digit_of(c9);
    if 1 <= m && m <= 12 && 1 <= d && d <= days_in_month_exec(y, m) {
        Some(Date { year: y as u16, month: m as u8, day: d as u8 })
    } else {
        None
    }
}

/// Parses a date literal, trying the combined `YYYY-MM-DDThh:mm:ss` form
/// first and the bare `YYYY-MM-DD` form second; in the combined form only the
/// date part is kept. Any other text is rejected.
pub fn parse_date(s: &str) -> (r: Result<Date, ParsingError>)
    ensures
        match r {
            Ok(d) => spec_parse_date(s@) == Some(d) && date_wf(d),
            Err(e) => {
                &&& spec_parse_date(s@) is None
                &&& e matches ParsingError::ParseDateError(m) && m@ == "Invalid date format: "@
                    + s@
            },
        },
{
    let len = s.unicode_len();
    let parsed: Option<Date> = if len == 19 {
        let c10 = s.get_char(10);
        let c11 = s.get_char(11);
        let c12 = s.get_char(12);
        let c13 = s.get_char(13);
        let c14 = s.get_char(14);
        let c15 = s.get_char(15);
        let c16 = s.get_char(16);
        let c17 = s.get_char(17);
        let c18 = s.get_char(18);
        if c10 == 'T' && is_digit(c11) && is_digit(c12) && c13 == ':' && is_digit(c14) && is_digit(
            c15,
        ) && c16 == ':' && is_digit(c17) && is_digit(c18) && digit_of(c11) * 10 + digit_of(c12)
            <= 23 && digit_of(c14) * 10 + digit_of(c15) <= 59 && digit_of(c17) * 10 + digit_of(c18)
            <= 59 {
            parse_ymd(s, Ghost(s@.subrange(0, 10)))
        } else {
            None
        }
    } else if len == 10 {
        proof {
            assert(s@.subrange(0, 10) =~= s@);
        }
        parse_ymd(s, Ghost(s@.subrange(0, 10)))
    } else {
        None
    };
    match parsed {
        Some(d) => Ok(d),
        None => Err(
            ParsingError::ParseDateError(String::from_str("Invalid date format: ").concat(s)),
        ),
    }
}

/// Renders a date as its bare ten-character literal.
pub fn date_to_string(d: &Date) -> (r: String)
    requires
        date_wf(*d),
    ensures
        r@ == date_str_spec(*d),
{
    proof {
        reveal_strlit("-");
    }
    let mut s = pad4_string(d.year as u32);
    s.append("-");
    let mm = pad2_string(d.month as u32);
    s.append(mm.as_str());
    s.append("-");
    let dd = pad2_string(d.day as u32);
    s.append(dd.as_str());
    proof {
        assert(s@ =~= date_str_spec(*d));
    }
    s
}

/// Renders the four-digit month-day token of a date.
pub fn mmdd_string(d: &Date) -> (r: String)
    requires
        date_wf(*d),
    ensures
        r@ == mmdd_spec(*d),
{
    let mut s = pad2_string(d.month as u32);
    let dd = pad2_string(d.day as u32);
    s.append(dd.as_str());
    proof {
        assert(s@ =~= mmdd_spec(*d));
    }
    s
}

} // verus!
