//! The event date shown above a listing: the event's naive local timestamp
//! `YYYY-MM-DDTHH:MM:SS`, validated as a real calendar date and reshaped to
//! `DD/MM/YYYY`; anything else becomes a fixed placeholder.

use vstd::prelude::*;
use vstd::string::StrSliceExecFns;
use vstd::string::StringExecFns;

verus! {

/// An ASCII decimal digit.
pub open spec fn is_digit(c: char) -> bool {
    0x30 <= c as u32 && c as u32 <= 0x39
}

/// The value of an ASCII decimal digit.
pub open spec fn digit_val(c: char) -> int {
    c as u32 - 0x30
}

/// A leap year of the proleptic Gregorian calendar.
pub open spec fn is_leap_year(y: int) -> bool {
    y % 4 == 0 && (y % 100 != 0 || y % 400 == 0)
}

/// How many days month `m` of year `y` has.
pub open spec fn days_in_month(y: int, m: int) -> int {
    if m == 2 {
        if is_leap_year(y) {
            29
        } else {
            28
        }
    } else if m == 4 || m == 6 || m == 9 || m == 11 {
        30
    } else {
        31
    }
}

/// The two-digit number at positions `i` and `i + 1`.
pub open spec fn two_digits(s: Seq<char>, i: int) -> int {
    digit_val(s[i]) * 10 + digit_val(s[i + 1])
}

/// The four-digit year at the front of the timestamp.
pub open spec fn year_of(s: Seq<char>) -> int {
    digit_val(s[0]) * 1000 + digit_val(s[1]) * 100 + digit_val(s[2]) * 10 + digit_val(s[3])
}

/// A well-formed event timestamp: exactly `YYYY-MM-DDTHH:MM:SS`, naming a
/// real calendar date and a time of day.  A second of 60 names a leap
/// second.
pub open spec fn valid_event_datetime(s: Seq<char>) -> bool {
    &&& s.len() == 19
    &&& is_digit(s[0]) && is_digit(s[1]) && is_digit(s[2]) && is_digit(s[3])
    &&& s[4] == '-'
    &&& is_digit(s[5]) && is_digit(s[6])
    &&& s[7] == '-'
    &&& is_digit(s[8]) && is_digit(s[9])
    &&& s[10] == 'T'
    &&& is_digit(s[11]) && is_digit(s[12])
    &&& s[13] == ':'
    &&& is_digit(s[14]) && is_digit(s[15])
    &&& s[16] == ':'
    &&& is_digit(s[17]) && is_digit(s[18])
    &&& 1 <= two_digits(s, 5) <= 12
    &&& 1 <= two_digits(s, 8) <= days_in_month(year_of(s), two_digits(s, 5))
    &&& two_digits(s, 11) <= 23
    &&& two_digits(s, 14) <= 59
    &&& two_digits(s, 17) <= 60
}

/// The display form of a well-formed timestamp: its day, month and year
/// digits rearranged to `DD/MM/YYYY`.
pub open spec fn formatted_date(s: Seq<char>) -> Seq<char> {
    seq![s[8], s[9], '/', s[5], s[6], '/', s[0], s[1], s[2], s[3]]
}

fn digit_at(s: &str, i: usize) -> (r: Option<u32>)
    requires
        i < s@.len(),
    ensures
        match r {
            Some(v) => is_digit(s@[i as int]) && v == digit_val(s@[i as int]),
            None => !is_digit(s@[i as int]),
        },
{
    let u = s.get_char(i) as u32;
    if 0x30 <= u && u <= 0x39 {
        Some(u - 0x30)
    } else {
        None
    }
}

fn char_is(s: &str, i: usize, c: char) -> (r: bool)
    requires
        i < s@.len(),
    ensures
        r == (s@[i as int] == c),
{
    s.get_char(i) == c
}

fn invalid_date() -> (r: String)
    ensures
        r@ == "<invalid date>"@,
{
    String::from_str("<invalid date>")
}

/// Formats an event's naive local timestamp for display: a well-formed
/// `YYYY-MM-DDTHH:MM:SS` becomes `DD/MM/YYYY`, anything else the literal
/// placeholder `<invalid date>`.
pub fn format_event_date(local: &str) -> (r: String)
    ensures
        valid_event_datetime(local@) ==> r@ == formatted_date(local@),
        !valid_event_datetime(local@) ==> r@ == "<invalid date>"@,
{
    let len = local.unicode_len();
    if len != 19 {
        return invalid_date();
    }
    let d0 = digit_at(local, 0);
    let d1 = digit_at(local, 1);
    let d2 = digit_at(local, 2);
    let d3 = digit_at(local, 3);
    let (y0, y1, y2, y3) = match (d0, d1, d2, d3) {
        (Some(a), Some(b), Some(c), Some(d)) => (a, b, c, d),
        _ => {
            return invalid_date();
        },
    };
    if !(char_is(local, 4, '-') && char_is(local, 7, '-') && char_is(local, 10, 'T')
        && char_is(local, 13, ':') && char_is(local, 16, ':')) {
        return invalid_date();
    }
    let month = match (digit_at(local, 5), digit_at(local, 6)) {
        (Some(a), Some(b)) => a * 10 + b,
        _ => {
            return invalid_date();
        },
    };
    let day = match (digit_at(local, 8), digit_at(local, 9)) {
        (Some(a), Some(b)) => a * 10 + b,
        _ => {
            return invalid_date();
        },
    };
    let hour = match (digit_at(local, 11), digit_at(local, 12)) {
        (Some(a), Some(b)) => a * 10 + b,
        _ => {
            return invalid_date();
        },
    };
    let minute = match (digit_at(local, 14), digit_at(local, 15)) {
        (Some(a), Some(b)) => a * 10 + b,
        _ => {
            return invalid_date();
        },
    };
    let second = match (digit_at(local, 17), digit_at(local, 18)) {
        (Some(a), Some(b)) => a * 10 + b,
        _ => {
            return invalid_date();
        },
    };
    let year = y0 * 1000 + y1 * 100 + y2 * 10 + y3;
    if month < 1 || month > 12 {
        return invalid_date();
    }
    let leap = year % 4 == 0 && (year % 100 != 0 || year % 400 == 0);
    let dim: u32 = if month == 2 {
        if leap {
            29
        } else {
            28
        }
    } else if month == 4 || month == 6 || month == 9 || month == 11 {
        30
    } else {
        31
    };
    if day < 1 || day > dim {
        return invalid_date();
    }
    if hour > 23 || minute > 59 || second > 60 {
        return invalid_date();
    }
    let mut r = String::from_str(local.substring_char(8, 10));
    r.append("/");
    r.append(local.substring_char(5, 7));
    r.append("/");
    r.append(local.substring_char(0, 4));
    proof {
        reveal_strlit("/");
        assert(r@ =~= formatted_date(local@));
    }
    r
}

} // verus!
