//! Calendar dates and date-times as plain values, with the two wire
//! renderings the API expects (`DD-MM-YYYY` for the single-date history
//! lookup, `YYYY-MM-DD` for event date ranges) and the conversion of a
//! date-time to Unix epoch seconds used by range lookups.

use vstd::prelude::*;

use crate::query::{dec_nat, fmt_u64};

verus! {

pub open spec fn is_leap_year(y: int) -> bool {
    (y % 4 == 0 && y % 100 != 0) || y % 400 == 0
}

pub open spec fn days_in_month(y: int, m: int) -> int {
    if m == 2 {
        if is_leap_year(y) {
            29
        } else {
            28
        }
    } else if m == 4 || m == 6 || m == 9 || m == 11 {
        30
    } else {
        31
    }
}

/// A calendar date the client can encode: a proleptic Gregorian date with
/// a four-digit year.
pub open spec fn valid_ymd(y: int, m: int, d: int) -> bool {
    &&& 1 <= y <= 9999
    &&& 1 <= m <= 12
    &&& 1 <= d <= days_in_month(y, m)
}

fn leap_year(y: u16) -> (r: bool)
    ensures
        r == is_leap_year(y as int),
{
    (y % 4 == 0 && y % 100 != 0) || y % 400 == 0
}

fn month_days(y: u16, m: u8) -> (r: u8)
    ensures
        r as int == days_in_month(y as int, m as int),
{
    if m == 2 {
        if leap_year(y) {
            29
        } else {
            28
        }
    } else if m == 4 || m == 6 || m == 9 || m == 11 {
        30
    } else {
        31
    }
}

/// A calendar date, day precision.
#[derive(Clone, Copy, Debug, PartialEq, Eq, Structural)]
pub struct Date {
    pub year: u16,
    pub month: u8,
    pub day: u8,
}

/// A calendar date with a time of day, second precision.
#[derive(Clone, Copy, Debug, PartialEq, Eq, Structural)]
pub struct DateTime {
    pub date: Date,
    pub hour: u8,
    pub minute: u8,
    pub second: u8,
}

/// `n` in decimal, padded with zeros on the left to two digits.
pub open spec fn pad2(n: nat) -> Seq<char> {
    if n < 10 {
        seq!['0'] + dec_nat(n)
    } else {
        dec_nat(n)
    }
}

/// `n` in decimal, padded with zeros on the left to four digits.
pub open spec fn pad4(n: nat) -> Seq<char> {
    if n < 10 {
        seq!['0', '0', '0'] + dec_nat(n)
    } else if n < 100 {
        seq!['0', '0'] + dec_nat(n)
    } else if n < 1000 {
        seq!['0'] + dec_nat(n)
    } else {
        dec_nat(n)
    }
}

fn fmt_pad2(n: u64) -> (r: String)
    requires
        n < 100,
    ensures
        r@ == pad2(n as nat),
{
    let mut s = String::new();
    if n < 10 {
        proof {
            reveal_strlit("0");
        }
        s.append("0");
    }
    s.append(fmt_u64(n).as_str());
    proof {
        assert(s@ =~= pad2(n as nat));
    }
    s
}

fn fmt_pad4(n: u64) -> (r: String)
    requires
        n < 10000,
    ensures
        r@ == pad4(n as nat),
{
    let mut s = String::new();
    if n < 10 {
        proof {
            reveal_strlit("000");
        }
        s.append("000");
    } else if n < 100 {
        proof {
            reveal_strlit("00");
        }
        s.append("00");
    } else if n < 1000 {
        proof {
            reveal_strlit("0");
        }
        s.append("0");
    }
    s.append(fmt_u64(n).as_str());
    proof {
        assert(s@ =~= pad4(n as nat));
    }
    s
}

/// The `DD-MM-YYYY` rendering of a date.
pub open spec fn dmy_token(d: Date) -> Seq<char> {
    pad2(d.day as nat) + "-"@ + pad2(d.month as nat) + "-"@ + pad4(d.year as nat)
}

/// The `YYYY-MM-DD` rendering of a date.
pub open spec fn ymd_token(d: Date) -> Seq<char> {
    pad4(d.year as nat) + "-"@ + pad2(d.month as nat) + "-"@ + pad2(d.day as nat)
}

/// The number of days from the Unix epoch to the given date; negative for
/// dates before 1970.
pub open spec fn days_from_epoch(y: int, m: int, d: int) -> int {
    let yy = if m <= 2 {
        y - 1
    } else {
        y
    };
    let era = yy / 400;
    let yoe = yy - era * 400;
    let mp = if m > 2 {
        m - 3
    } else {
        m + 9
    };
    let doy = (153 * mp + 2) / 5 + d - 1;
    let doe = yoe * 365 + yoe / 4 - yoe / 100 + doy;
    era * 146097 + doe - 719468
}

/// The Unix epoch seconds of a date-time, taken as UTC.
pub open spec fn epoch_seconds(t: DateTime) -> int {
    days_from_epoch(t.date.year as int, t.date.month as int, t.date.day as int) * 86400
        + t.hour as int * 3600 + t.minute as int * 60 + t.second as int
}

impl Date {
    /// A well-formed value holds an actual calendar date.
    pub open spec fn wf(self) -> bool {
        valid_ymd(self.year as int, self.month as int, self.day as int)
    }

    /// Builds a date, rejecting anything that is not an actual calendar
    /// date with a four-digit year.
    pub fn from_ymd(year: u16, month: u8, day: u8) -> (r: Option<Date>)
        ensures
            r is Some <==> valid_ymd(year as int, month as int, day as int),
            r is Some ==> r == Some((Date { year, month, day })),
    {
        if 1 <= year && year <= 9999 && 1 <= month && month <= 12 && 1 <= day && day <= month_days(
            year,
            month,
        ) {
            Some(Date { year, month, day })
        } else {
            None
        }
    }

    /// Renders the date as `DD-MM-YYYY`.
    pub fn format_dmy(&self) -> (r: String)
        requires
            self.wf(),
        ensures
            r@ == dmy_token(*self),
    {
        let mut s = fmt_pad2(self.day as u64);
        s.append("-");
        s.append(fmt_pad2(self.month as u64).as_str());
        s.append("-");
        s.append(fmt_pad4(self.year as u64).as_str());
        s
    }

    /// Renders the date as `YYYY-MM-DD`.
    pub fn format_ymd(&self) -> (r: String)
        requires
            self.wf(),
        ensures
            r@ == ymd_token(*self),
    {
        let mut s = fmt_pad4(self.year as u64);
        s.append("-");
        s.append(fmt_pad2(self.month as u64).as_str());
        s.append("-");
        s.append(fmt_pad2(self.day as u64).as_str());
        s
    }
}

impl DateTime {
    /// A well-formed value holds an actual calendar date and time of day.
    pub open spec fn wf(self) -> bool {
        self.date.wf() && self.hour < 24 && self.minute < 60 && self.second < 60
    }

    /// Builds a date-time, rejecting anything that is not an actual
    /// calendar date with a valid time of day.
    pub fn new(date: Date, hour: u8, minute: u8, second: u8) -> (r: Option<DateTime>)
        ensures
            r is Some <==> date.wf() && hour < 24 && minute < 60 && second < 60,
            r is Some ==> r == Some((DateTime { date, hour, minute, second })),
    {
        if 1 <= date.year && date.year <= 9999 && 1 <= date.month && date.month <= 12 && 1
            <= date.day && date.day <= month_days(date.year, date.month) && hour < 24 && minute
            < 60 && second < 60 {
            Some(DateTime { date, hour, minute, second })
        } else {
            None
        }
    }

    /// The Unix epoch seconds of this date-time, taken as UTC.
    pub fn unix_timestamp(&self) -> (r: i64)
        requires
            self.wf(),
        ensures
            r as int == epoch_seconds(*self),
    {
        let y: u64 = self.date.year as u64;
        let m: u64 = self.date.month as u64;
        let d: u64 = self.date.day as u64;
        let yy: u64 = if m <= 2 {
            y - 1
        } else {
            y
        };
        let era: u64 = yy / 400;
        let yoe: u64 = yy - era * 400;
        let mp: u64 = if m > 2 {
            m - 3
        } else {
            m + 9
        };
        let doy: u64 = (153 * mp + 2) / 5 + d - 1;
        let doe: u64 = yoe * 365 + yoe / 4 - yoe / 100 + doy;
        let days: i64 = (era * 146097 + doe) as i64 - 719468;
        let tod: i64 = self.hour as i64 * 3600 + self.minute as i64 * 60 + self.second as i64;
        days * 86400 + tod
    }
}

/// Converting a calendar date and time of day to epoch seconds is a pure
/// function of that value alone: identical values give identical epoch
/// integers, whatever the order or number of conversions.
pub proof fn lemma_epoch_seconds_deterministic(a: DateTime, b: DateTime)
    requires
        a == b,
    ensures
        epoch_seconds(a) == epoch_seconds(b),
{
}

} // verus!
