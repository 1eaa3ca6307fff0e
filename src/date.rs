//! Calendar dates and their rendering as `YYYY/MM` directory prefixes.
use chrono::Datelike;
use vstd::prelude::*;
use vstd::string::*;

verus! {

/// A calendar date: the part of a capture time that the export layout reads.
#[derive(Clone, Copy, PartialEq, Eq, Structural, Debug)]
pub struct CalendarDate {
    pub year: i32,
    pub month: u32,
    pub day: u32,
}

impl CalendarDate {
    pub open spec fn wf(&self) -> bool {
        1 <= self.month <= 12 && 1 <= self.day <= 31
    }

    /// The date with the given parts; `None` unless the month lies in `1..=12` and
    /// the day in `1..=31`.
    pub fn new(year: i32, month: u32, day: u32) -> (r: Option<CalendarDate>)
        ensures
            r matches Some(d) ==> d.wf() && d.year == year && d.month == month && d.day == day,
            r is None <==> !(1 <= month <= 12 && 1 <= day <= 31),
    {
        if 1 <= month && month <= 12 && 1 <= day && day <= 31 {
            Some(CalendarDate { year, month, day })
        } else {
            None
        }
    }
}

/// Seconds from the Unix epoch to the library's epoch, the start of 2001 (UTC).
pub const COCOA_EPOCH_OFFSET: i64 = 978307200;

/// The calendar date, in UTC, of the instant `unix_seconds` after the Unix
/// epoch, as (year, month, day); `None` for an instant that chrono cannot
/// represent.
pub uninterp spec fn utc_date_of(unix_seconds: int) -> Option<(i32, u32, u32)>;

/// Relies on chrono's `DateTime::from_timestamp`, `DateTime::date_naive` and
/// `Datelike::{year, month, day}`: the UTC calendar date of a Unix timestamp,
/// or `None` when it is out of chrono's range. Its months run from 1 to 12 and
/// its days from 1 to 31, as `Datelike` documents.
#[verifier::external_body]
fn utc_date(unix_seconds: i64) -> (r: Option<(i32, u32, u32)>)
    ensures
        r == utc_date_of(unix_seconds as int),
        r matches Some((y, m, d)) ==> 1 <= m <= 12 && 1 <= d <= 31,
{
    chrono::DateTime::from_timestamp(unix_seconds, 0).map(
        |t| {
            let d = t.date_naive();
            (d.year(), d.month(), d.day())
        },
    )
}

pub open spec fn date_parts(o: Option<CalendarDate>) -> Option<(i32, u32, u32)> {
    match o {
        Some(d) => Some((d.year, d.month, d.day)),
        None => None,
    }
}

/// The local calendar date of a timestamp of the library: whole seconds since
/// the library's epoch, shifted by the local offset from UTC in seconds.
/// `None` when the instant cannot be represented.
pub fn parse_cocoa_timestamp(cocoa_seconds: i64, utc_offset_seconds: i32) -> (r: Option<CalendarDate>)
    ensures
        ({
            let unix = cocoa_seconds + COCOA_EPOCH_OFFSET + utc_offset_seconds;
            &&& (i64::MIN <= unix <= i64::MAX) ==> date_parts(r) == utc_date_of(unix)
            &&& !(i64::MIN <= unix <= i64::MAX) ==> r is None
        }),
        r matches Some(d) ==> d.wf(),
{
    let shifted = cocoa_seconds as i128 + COCOA_EPOCH_OFFSET as i128 + utc_offset_seconds as i128;
    if shifted < i64::MIN as i128 || shifted > i64::MAX as i128 {
        return None;
    }
    match utc_date(shifted as i64) {
        Some((year, month, day)) => Some(CalendarDate { year, month, day }),
        None => None,
    }
}

pub open spec fn digit_char(d: int) -> char {
    if d == 0 {
        '0'
    } else if d == 1 {
        '1'
    } else if d == 2 {
        '2'
    } else if d == 3 {
        '3'
    } else if d == 4 {
        '4'
    } else if d == 5 {
        '5'
    } else if d == 6 {
        '6'
    } else if d == 7 {
        '7'
    } else if d == 8 {
        '8'
    } else {
        '9'
    }
}

/// The decimal digits of `n`, without leading zeros.
pub open spec fn decimal(n: nat) -> Seq<char>
    decreases n,
{
    if n < 10 {
        seq![digit_char(n as int)]
    } else {
        decimal(n / 10).push(digit_char((n % 10) as int))
    }
}

/// `n` in decimal, with a leading `-` when negative.
pub open spec fn signed_decimal(n: int) -> Seq<char> {
    if n < 0 {
        seq!['-'] + decimal((-n) as nat)
    } else {
        decimal(n as nat)
    }
}

/// `n` in decimal, padded with zeros to two digits.
pub open spec fn two_digits(n: nat) -> Seq<char> {
    if n < 10 {
        seq!['0', digit_char(n as int)]
    } else {
        decimal(n)
    }
}

/// The directory prefix `YYYY/MM` of a date.
pub open spec fn year_month_prefix(d: CalendarDate) -> Seq<char> {
    signed_decimal(d.year as int) + seq!['/'] + two_digits(d.month as nat)
}

fn digit_text(d: u32) -> (r: String)
    requires
        d < 10,
    ensures
        r@ == seq![digit_char(d as int)],
{
    proof {
        reveal_strlit("0");
        reveal_strlit("1");
        reveal_strlit("2");
        reveal_strlit("3");
        reveal_strlit("4");
        reveal_strlit("5");
        reveal_strlit("6");
        reveal_strlit("7");
        reveal_strlit("8");
        reveal_strlit("9");
    }
    let s = if d == 0 {
        "0"
    } else if d == 1 {
        "1"
    } else if d == 2 {
        "2"
    } else if d == 3 {
        "3"
    } else if d == 4 {
        "4"
    } else if d == 5 {
        "5"
    } else if d == 6 {
        "6"
    } else if d == 7 {
        "7"
    } else if d == 8 {
        "8"
    } else {
        "9"
    };
    let r = String::from_str(s);
    assert(r@ =~= seq![digit_char(d as int)]);
    r
}

/// `n` in decimal.
pub fn decimal_text(n: u64) -> (r: String)
    ensures
        r@ == decimal(n as nat),
    decreases n,
{
    if n < 10 {
        digit_text(n as u32)
    } else {
        let head = decimal_text(n / 10);
        let last = digit_text((n % 10) as u32);
        let r = head.concat(last.as_str());
        assert(r@ =~= decimal((n / 10) as nat).push(digit_char((n % 10) as int)));
        r
    }
}

/// `n` in decimal, with a leading `-` when negative.
pub fn signed_decimal_text(n: i32) -> (r: String)
    ensures
        r@ == signed_decimal(n as int),
{
    if n < 0 {
        let magnitude: u64 = (-(n as i64)) as u64;
        let minus = "-";
        proof {
            reveal_strlit("-");
        }
        let r = String::from_str(minus).concat(decimal_text(magnitude).as_str());
        assert(r@ =~= seq!['-'] + decimal((-n) as nat));
        r
    } else {
        decimal_text(n as u64)
    }
}

/// `n` in decimal, padded with zeros to two digits.
pub fn two_digit_text(n: u32) -> (r: String)
    ensures
        r@ == two_digits(n as nat),
{
    if n < 10 {
        let r = String::from_str("0").concat(digit_text(n).as_str());
        proof {
            reveal_strlit("0");
        }
        assert(r@ =~= seq!['0', digit_char(n as int)]);
        r
    } else {
        decimal_text(n as u64)
    }
}

/// The directory prefix `YYYY/MM` of a date.
pub fn year_month_text(d: &CalendarDate) -> (r: String)
    ensures
        r@ == year_month_prefix(*d),
{
    let year = signed_decimal_text(d.year);
    let slash = "/";
    proof {
        reveal_strlit("/");
    }
    let r = year.concat(slash).concat(two_digit_text(d.month).as_str());
    assert(r@ =~= year_month_prefix(*d));
    r
}

} // verus!
