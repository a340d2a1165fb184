//! Calendar dates, as the plain three-field record the native binding
//! protocol takes: year, 2-byte month, 2-byte day.

use vstd::prelude::*;
use crate::render::render_u64;
use crate::render::spec_udigits;

verus! {

/// Whether a year is a leap year of the Gregorian calendar.
pub open spec fn spec_is_leap_year(y: int) -> bool {
    y % 4 == 0 && (y % 100 != 0 || y % 400 == 0)
}

/// The number of days in a month of a given year.
pub open spec fn spec_days_in_month(y: int, m: int) -> int {
    if m == 2 {
        if spec_is_leap_year(y) {
            29
        } else {
            28
        }
    } else if m == 4 || m == 6 || m == 9 || m == 11 {
        30
    } else {
        31
    }
}

/// A valid calendar date renderable as four year digits, two month digits
/// and two day digits.
pub open spec fn spec_valid_date(y: int, m: int, d: int) -> bool {
    0 <= y <= 9999 && 1 <= m <= 12 && 1 <= d <= spec_days_in_month(y, m)
}

/// A calendar date, laid out as the native date record: a signed 2-byte
/// year and unsigned 2-byte month and day.
#[derive(Clone, Copy, Debug, PartialEq, Eq, Structural)]
pub struct SqlDate {
    pub year: i16,
    pub month: u16,
    pub day: u16,
}

impl SqlDate {
    /// A well-formed date holds a valid Gregorian calendar date.
    pub open spec fn wf(self) -> bool {
        spec_valid_date(self.year as int, self.month as int, self.day as int)
    }

    /// Builds a date after checking calendar validity: `None` exactly on
    /// invalid year, month or day values.
    pub fn new(year: i16, month: u16, day: u16) -> (r: Option<SqlDate>)
        ensures
            match r {
                Some(d) => d.year == year && d.month == month && d.day == day && d.wf(),
                None => !spec_valid_date(year as int, month as int, day as int),
            },
    {
        if year < 0 || year > 9999 || month < 1 || month > 12 || day < 1 {
            return None;
        }
        let leap = (year % 4 == 0) && (year % 100 != 0 || year % 400 == 0);
        let limit: u16 = if month == 2 {
            if leap {
                29
            } else {
                28
            }
        } else if month == 4 || month == 6 || month == 9 || month == 11 {
            30
        } else {
            31
        };
        if day > limit {
            None
        } else {
            Some(SqlDate { year, month, day })
        }
    }
}

/// A number rendered in decimal and left-padded with zeros to two digits.
pub open spec fn spec_pad2(n: nat) -> Seq<char> {
    if n < 10 {
        seq!['0'] + spec_udigits(n)
    } else {
        spec_udigits(n)
    }
}

/// A number rendered in decimal and left-padded with zeros to four digits.
pub open spec fn spec_pad4(n: nat) -> Seq<char> {
    if n < 10 {
        seq!['0', '0', '0'] + spec_udigits(n)
    } else if n < 100 {
        seq!['0', '0'] + spec_udigits(n)
    } else if n < 1000 {
        seq!['0'] + spec_udigits(n)
    } else {
        spec_udigits(n)
    }
}

/// The fixed rendering of a date: four year digits, a dash, two month
/// digits, a dash, two day digits.
pub open spec fn spec_iso_date(y: nat, m: nat, d: nat) -> Seq<char> {
    spec_pad4(y) + seq!['-'] + spec_pad2(m) + seq!['-'] + spec_pad2(d)
}

fn pad2(n: u64) -> (r: String)
    requires
        n < 100,
    ensures
        r@ == spec_pad2(n as nat),
{
    if n < 10 {
        proof {
            reveal_strlit("0");
            assert("0"@ =~= seq!['0']);
        }
        let mut s = String::from_str("0");
        let digits = render_u64(n);
        s.append(digits.as_str());
        s
    } else {
        render_u64(n)
    }
}

fn pad4(n: u64) -> (r: String)
    requires
        n < 10000,
    ensures
        r@ == spec_pad4(n as nat),
{
    proof {
        reveal_strlit("0");
        reveal_strlit("00");
        reveal_strlit("000");
        assert("0"@ =~= seq!['0']);
        assert("00"@ =~= seq!['0', '0']);
        assert("000"@ =~= seq!['0', '0', '0']);
    }
    let digits = render_u64(n);
    if n < 10 {
        let mut s = String::from_str("000");
        s.append(digits.as_str());
        s
    } else if n < 100 {
        let mut s = String::from_str("00");
        s.append(digits.as_str());
        s
    } else if n < 1000 {
        let mut s = String::from_str("0");
        s.append(digits.as_str());
        s
    } else {
        digits
    }
}

impl SqlDate {
    /// Renders the date in its fixed year-month-day form, zero-padded.
    pub fn render_iso(&self) -> (r: String)
        requires
            self.wf(),
        ensures
            r@ == spec_iso_date(self.year as nat, self.month as nat, self.day as nat),
    {
        proof {
            reveal_strlit("-");
            assert("-"@ =~= seq!['-']);
        }
        let mut s = pad4(self.year as u64);
        let m = pad2(self.month as u64);
        let d = pad2(self.day as u64);
        s.append("-");
        s.append(m.as_str());
        s.append("-");
        s.append(d.as_str());
        s
    }
}

} // verus!
