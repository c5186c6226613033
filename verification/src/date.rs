//! Calendar dates, held as plain year / month / day values that `chrono`
//! accepts, with the parsing, formatting and day arithmetic delegated to
//! `chrono::NaiveDate`.

use chrono::Datelike;
use vstd::prelude::*;
use crate::numbers::nat_text;

verus! {

/// What `chrono::NaiveDate::parse_from_str(text, fmt)` yields, as a
/// year / month / day triple, or `None` where it reports an error.
pub uninterp spec fn naive_date_parse(text: Seq<char>, fmt: Seq<char>) -> Option<(int, int, int)>;

/// A number written with zeros in front up to `w` digits.
pub open spec fn zero_padded(n: nat, w: nat) -> Seq<char> {
    let t = nat_text(n);
    if t.len() < w {
        Seq::new((w - t.len()) as nat, |i: int| '0') + t
    } else {
        t
    }
}

/// How chrono writes a year for `%Y`: four digits from 0 to 9999, any other
/// year with its sign and at least four digits.
pub open spec fn year_text(y: int) -> Seq<char> {
    if 0 <= y <= 9999 {
        zero_padded(y as nat, 4)
    } else if y < 0 {
        seq!['-'] + zero_padded((-y) as nat, 4)
    } else {
        seq!['+'] + zero_padded(y as nat, 4)
    }
}

/// What `chrono::NaiveDate::format(fmt).to_string()` writes for a date in
/// the two formats that this library uses: the year, then month and day as
/// two digits each, with `-` between them in the form format `%Y-%m-%d` and
/// nothing between them in the storage format `%Y%m%d`.
pub open spec fn naive_date_format(y: int, m: int, d: int, fmt: Seq<char>) -> Seq<char> {
    if fmt == iso_format() {
        year_text(y) + seq!['-'] + zero_padded(m as nat, 2) + seq!['-'] + zero_padded(d as nat, 2)
    } else {
        year_text(y) + zero_padded(m as nat, 2) + zero_padded(d as nat, 2)
    }
}

/// What `chrono::NaiveDate::checked_add_signed(TimeDelta::try_days(n)?)`
/// yields for a date and a number of days.
pub uninterp spec fn naive_date_add_days(y: int, m: int, d: int, n: int) -> Option<(int, int, int)>;

/// The storage format of dates: `%Y%m%d`, as in `20240131`.
pub open spec fn compact_format() -> Seq<char> {
    seq!['%', 'Y', '%', 'm', '%', 'd']
}

/// The format of dates in web forms: `%Y-%m-%d`, as in `2024-01-31`.
pub open spec fn iso_format() -> Seq<char> {
    seq!['%', 'Y', '-', '%', 'm', '-', '%', 'd']
}

/// First year that `chrono::NaiveDate` represents.
pub open spec fn min_year() -> int {
    -262143
}

/// Last year that `chrono::NaiveDate` represents.
pub open spec fn max_year() -> int {
    262142
}

/// Leap years of the proleptic Gregorian calendar.
pub open spec fn is_leap_year(y: int) -> bool {
    y % 4 == 0 && (y % 100 != 0 || y % 400 == 0)
}

pub open spec fn days_in_month(y: int, m: int) -> int {
    if m == 2 {
        if is_leap_year(y) { 29 } else { 28 }
    } else if m == 4 || m == 6 || m == 9 || m == 11 {
        30
    } else {
        31
    }
}

/// The dates that `chrono::NaiveDate::from_ymd_opt` accepts.
pub open spec fn valid_ymd(y: int, m: int, d: int) -> bool {
    &&& min_year() <= y <= max_year()
    &&& 1 <= m <= 12
    &&& 1 <= d <= days_in_month(y, m)
}

/// The literal `"%Y%m%d"` is the storage format.
pub proof fn lemma_compact_format_literal()
    ensures
        "%Y%m%d"@ == compact_format(),
{
    reveal_strlit("%Y%m%d");
    assert("%Y%m%d"@ =~= compact_format());
}

/// The literal `"%Y-%m-%d"` is the form format.
pub proof fn lemma_iso_format_literal()
    ensures
        "%Y-%m-%d"@ == iso_format(),
{
    reveal_strlit("%Y-%m-%d");
    assert("%Y-%m-%d"@ =~= iso_format());
}

/// A calendar date.
#[derive(Clone, Copy, Debug, PartialEq, Eq, Structural)]
pub struct Date {
    year: i32,
    month: u32,
    day: u32,
}

impl View for Date {
    type V = (int, int, int);

    closed spec fn view(&self) -> (int, int, int) {
        (self.year as int, self.month as int, self.day as int)
    }
}

impl Date {
    #[verifier::type_invariant]
    closed spec fn inv(self) -> bool {
        valid_ymd(self.year as int, self.month as int, self.day as int)
    }

    /// The date with the given year, month and day, where one exists.
    pub fn from_ymd(year: i32, month: u32, day: u32) -> (r: Option<Date>)
        ensures
            r is Some <==> valid_ymd(year as int, month as int, day as int),
            r matches Some(d) ==> d@ == (year as int, month as int, day as int),
    {
        chrono_from_ymd(year, month, day)
    }

    pub fn year(&self) -> (r: i32)
        ensures
            r as int == self@.0,
    {
        self.year
    }

    pub fn month(&self) -> (r: u32)
        ensures
            r as int == self@.1,
    {
        self.month
    }

    pub fn day(&self) -> (r: u32)
        ensures
            r as int == self@.2,
    {
        self.day
    }
}

/// `chrono::NaiveDate::from_ymd_opt`: `Some` exactly on the valid dates of
/// the proleptic Gregorian calendar within chrono's year range.
#[verifier::external_body]
fn chrono_from_ymd(year: i32, month: u32, day: u32) -> (r: Option<Date>)
    ensures
        r is Some <==> valid_ymd(year as int, month as int, day as int),
        r matches Some(d) ==> d@ == (year as int, month as int, day as int),
{
    chrono::NaiveDate::from_ymd_opt(year, month, day).map(|_| Date { year, month, day })
}

/// `chrono::NaiveDate::parse_from_str`: the parsed date is the one that
/// `naive_date_parse` names, and `None` stands for chrono's error.
#[verifier::external_body]
pub(crate) fn parse_date(text: &str, fmt: &str) -> (r: Option<Date>)
    ensures
        match r {
            Some(d) => naive_date_parse(text@, fmt@) == Some(d@),
            None => naive_date_parse(text@, fmt@) is None,
        },
{
    chrono::NaiveDate::parse_from_str(text, fmt).ok().map(
        |n| Date { year: n.year(), month: n.month(), day: n.day() },
    )
}

/// `chrono::NaiveDate::format(fmt).to_string()`, for the two formats that
/// this library uses. For a year from 0 to 9999 chrono writes the year with
/// four digits and month and day with two, so that parsing the text with the
/// same format gives the date back.
#[verifier::external_body]
pub(crate) fn format_date(d: Date, fmt: &str) -> (r: String)
    requires
        fmt@ == compact_format() || fmt@ == iso_format(),
    ensures
        r@ == naive_date_format(d@.0, d@.1, d@.2, fmt@),
        0 <= d@.0 <= 9999 ==> naive_date_parse(r@, fmt@) == Some(d@),
{
    // every `Date` is one that chrono accepts, so the default is never taken
    let n = chrono::NaiveDate::from_ymd_opt(d.year, d.month, d.day).unwrap_or_default();
    n.format(fmt).to_string()
}

/// `NaiveDate::checked_add_signed` by `TimeDelta::try_days(days)`: the date
/// that many days later (earlier, for a negative count), `None` where chrono
/// cannot represent it.
#[verifier::external_body]
pub(crate) fn add_days(d: Date, days: i64) -> (r: Option<Date>)
    ensures
        match r {
            Some(e) => naive_date_add_days(d@.0, d@.1, d@.2, days as int) == Some(e@),
            None => naive_date_add_days(d@.0, d@.1, d@.2, days as int) is None,
        },
{
    let n = chrono::NaiveDate::from_ymd_opt(d.year, d.month, d.day).unwrap_or_default();
    chrono::TimeDelta::try_days(days).and_then(|t| n.checked_add_signed(t)).map(
        |n| Date { year: n.year(), month: n.month(), day: n.day() },
    )
}

} // verus!
