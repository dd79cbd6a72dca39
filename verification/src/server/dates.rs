use vstd::prelude::*;

verus! {

/// A calendar date, held as plain values. The driver library receives it
/// converted back to its own date type by the surrounding process.
#[derive(Clone, Copy, Debug, PartialEq, Eq, Structural)]
pub struct Date {
    pub year: u16,
    pub month: u8,
    pub day: u8,
}

/// A leap year of the Gregorian calendar.
pub open spec fn is_leap_year(y: int) -> bool {
    y % 4 == 0 && (y % 100 != 0 || y % 400 == 0)
}

/// How many days the given month of the given year has.
pub open spec fn days_in_month(y: int, m: int) -> int {
    if m == 2 {
        if is_leap_year(y) {
            29
        } else {
            28
        }
    } else if m == 4 || m == 6 || m == 9 || m == 11 {
        30
    } else {
        31
    }
}

/// A date that exists in the calendar.
pub open spec fn date_wf(d: Date) -> bool {
    &&& 1 <= d.month <= 12
    &&& 1 <= d.day <= days_in_month(d.year as int, d.month as int)
}

/// An ASCII decimal digit.
pub open spec fn is_digit_char(c: char) -> bool {
    48 <= c as u32 && c as u32 <= 57
}

/// The value of one decimal digit.
pub open spec fn digit_val(c: char) -> int {
    c as u32 - 48
}

/// The date a ten-character `YYYY-MM-DD` text names, when it exists in the
/// calendar; anything else is rejected.
pub open spec fn spec_parse_date(s: Seq<char>) -> Option<Date> {
    if s.len() != 10 || s[4] != '-' || s[7] != '-' || !is_digit_char(s[0]) || !is_digit_char(s[1])
        || !is_digit_char(s[2]) || !is_digit_char(s[3]) || !is_digit_char(s[5]) || !is_digit_char(
        s[6],
    ) || !is_digit_char(s[8]) || !is_digit_char(s[9]) {
        None
    } else {
        let y = digit_val(s[0]) * 1000 + digit_val(s[1]) * 100 + digit_val(s[2]) * 10 + digit_val(
            s[3],
        );
        let m = digit_val(s[5]) * 10 + digit_val(s[6]);
        let d = digit_val(s[8]) * 10 + digit_val(s[9]);
        let date = Date { year: y as u16, month: m as u8, day: d as u8 };
        if date_wf(date) {
            Some(date)
        } else {
            None
        }
    }
}

/// Reads one decimal digit of the text.
fn read_digit(s: &str, i: usize) -> (r: Option<u16>)
    requires
        i < s@.len(),
    ensures
        match r {
            Some(v) => is_digit_char(s@[i as int]) && v == digit_val(s@[i as int]),
            None => !is_digit_char(s@[i as int]),
        },
{
    let c = s.get_char(i);
    let n = c as u32;
    if 48 <= n && n <= 57 {
        Some((n - 48) as u16)
    } else {
        None
    }
}

/// Parses a `YYYY-MM-DD` text into the date it names; mirrors
/// `spec_parse_date`. The result is a date that exists in the calendar.
pub fn parse_date(s: &str) -> (r: Option<Date>)
    ensures
        r == spec_parse_date(s@),
        r is Some ==> date_wf(r->0),
{
    let n = s.unicode_len();
    if n != 10 {
        return None;
    }
    if s.get_char(4) != '-' || s.get_char(7) != '-' {
        return None;
    }
    let d0 = match read_digit(s, 0) {
        Some(v) => v,
        None => { return None },
    };
    let d1 = match read_digit(s, 1) {
        Some(v) => v,
        None => { return None },
    };
    let d2 = match read_digit(s, 2) {
        Some(v) => v,
        None => { return None },
    };
    let d3 = match read_digit(s, 3) {
        Some(v) => v,
        None => { return None },
    };
    let m0 = match read_digit(s, 5) {
        Some(v) => v,
        None => { return None },
    };
    let m1 = match read_digit(s, 6) {
        Some(v) => v,
        None => { return None },
    };
    let e0 = match read_digit(s, 8) {
        Some(v) => v,
        None => { return None },
    };
    let e1 = match read_digit(s, 9) {
        Some(v) => v,
        None => { return None },
    };
    let year: u16 = d0 * 1000 + d1 * 100 + d2 * 10 + d3;
    let month: u8 = (m0 * 10 + m1) as u8;
    let day: u8 = (e0 * 10 + e1) as u8;
    let date = Date { year, month, day };
    if month < 1 || month > 12 {
        return None;
    }
    let dim: u8 = days_in_month_exec(year, month);
    if day < 1 || day > dim {
        return None;
    }
    Some(date)
}

/// How many days the given month has; mirrors `days_in_month`.
fn days_in_month_exec(y: u16, m: u8) -> (r: u8)
    requires
        1 <= m <= 12,
    ensures
        r == days_in_month(y as int, m as int),
{
    if m == 2 {
        if y % 4 == 0 && (y % 100 != 0 || y % 400 == 0) {
            29
        } else {
            28
        }
    } else if m == 4 || m == 6 || m == 9 || m == 11 {
        30
    } else {
        31
    }
}

} // verus!
