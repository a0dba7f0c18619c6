//! Calendar dates, read and written as `YYYY-MM-DD` through `chrono`.

use vstd::prelude::*;

use crate::models::{chrono_instant, Timestamp};

verus! {

/// A calendar date.
#[derive(Debug, Clone, Copy, PartialEq, Eq)]
pub struct Date {
    pub year: i32,
    pub month: u32,
    pub day: u32,
}

/// The year, month and day `chrono::NaiveDate::parse_from_str(s, "%Y-%m-%d")`
/// reads from `s`, if it accepts it.
pub uninterp spec fn parsed_ymd(s: Seq<char>) -> Option<(i32, u32, u32)>;

/// Whether `chrono::NaiveDate::from_ymd_opt(y, m, d)` gives a date.
pub uninterp spec fn ymd_is_date(y: i32, m: u32, d: u32) -> bool;

/// The text `chrono` writes for a date with the format `%Y-%m-%d`.
pub uninterp spec fn ymd_text(y: i32, m: u32, d: u32) -> Seq<char>;

/// The date read from `s`, as a `Date`.
pub open spec fn parsed_date(s: Seq<char>) -> Option<Date> {
    match parsed_ymd(s) {
        Some((y, m, d)) => Some(Date { year: y, month: m, day: d }),
        None => None,
    }
}

/// Whether a date holds a calendar day that `chrono` represents.
pub open spec fn date_valid(d: Date) -> bool {
    ymd_is_date(d.year, d.month, d.day)
}

/// The `YYYY-MM-DD` text of a date.
pub open spec fn date_text(d: Date) -> Seq<char> {
    ymd_text(d.year, d.month, d.day)
}

/// Chronological order.
pub open spec fn date_lt(a: Date, b: Date) -> bool {
    a.year < b.year || (a.year == b.year && (a.month < b.month || (a.month == b.month && a.day
        < b.day)))
}

/// The text of the error `chrono::NaiveDate::parse_from_str(s, "%Y-%m-%d")`
/// reports when it refuses `s` (its `Display`).
pub uninterp spec fn ymd_parse_error(s: Seq<char>) -> Seq<char>;

/// Reads a `YYYY-MM-DD` date with `chrono::NaiveDate::parse_from_str`; the
/// date it gives is one `NaiveDate::from_ymd_opt` accepts. A refusal carries
/// chrono's error text.
#[verifier::external_body]
pub(crate) fn parse_ymd(s: &str) -> (r: Result<Date, String>)
    ensures
        match parsed_ymd(s@) {
            Some((y, m, d)) => r == Ok::<Date, String>(Date { year: y, month: m, day: d })
                && ymd_is_date(y, m, d),
            None => r is Err && r->Err_0@ == ymd_parse_error(s@),
        },
{
    match chrono::NaiveDate::parse_from_str(s, "%Y-%m-%d") {
        Ok(d) => Ok(
            Date {
                year: chrono::Datelike::year(&d),
                month: chrono::Datelike::month(&d),
                day: chrono::Datelike::day(&d),
            },
        ),
        Err(e) => Err(e.to_string()),
    }
}

/// The decimal digit for `n` (0 to 9).
pub open spec fn digit_char(n: int) -> char {
    (48 + n) as char
}

/// `YYYY-MM-DD` for a year from 0 to 9999: the year in four digits, month
/// and day in two, each zero-padded.
pub open spec fn ymd_plain_text(y: i32, m: u32, d: u32) -> Seq<char> {
    let (y, m, d) = (y as int, m as int, d as int);
    seq![
        digit_char(y / 1000),
        digit_char((y / 100) % 10),
        digit_char((y / 10) % 10),
        digit_char(y % 10),
        '-',
        digit_char((m / 10) % 10),
        digit_char(m % 10),
        '-',
        digit_char((d / 10) % 10),
        digit_char(d % 10),
    ]
}

/// Writes a date with `chrono`'s `%Y-%m-%d` format. chrono writes a year
/// from 0 to 9999 in four zero-padded digits and any other year with its
/// sign (`-0001`, `+10000`), then the month and day in two zero-padded
/// digits; `parse_from_str` with the same format reads that text back as the
/// same date.
#[verifier::external_body]
pub(crate) fn format_ymd(d: Date) -> (r: String)
    requires
        ymd_is_date(d.year, d.month, d.day),
    ensures
        r@ == ymd_text(d.year, d.month, d.day),
        parsed_ymd(r@) == Some((d.year, d.month, d.day)),
        0 <= d.year <= 9999 ==> r@ == ymd_plain_text(d.year, d.month, d.day),
        r@.len() > 0,
        ('0' <= r@[0] <= '9') || r@[0] == '+' || r@[0] == '-',
        '0' <= r@.last() <= '9',
{
    chrono::NaiveDate::from_ymd_opt(d.year, d.month, d.day).unwrap().format("%Y-%m-%d").to_string()
}

/// Whether `a` is strictly before `b`.
pub fn date_before(a: Date, b: Date) -> (r: bool)
    ensures
        r == date_lt(a, b),
{
    a.year < b.year || (a.year == b.year && (a.month < b.month || (a.month == b.month && a.day
        < b.day)))
}

/// The RFC 3339 text chrono gives a UTC time (`DateTime::<Utc>::to_rfc3339`).
pub uninterp spec fn rfc3339_of(t: Timestamp) -> Seq<char>;

/// A time as RFC 3339 text: `chrono::DateTime::<Utc>::from_timestamp`, which
/// gives an instant for every time `chrono_instant` admits, then
/// `to_rfc3339`. The contract claims only that the
/// text is the one `rfc3339_of` names.
#[verifier::external_body]
pub(crate) fn rfc3339_text(t: Timestamp) -> (r: String)
    requires
        chrono_instant(t),
    ensures
        r@ == rfc3339_of(t),
{
    chrono::DateTime::from_timestamp(t.secs, t.nanos).unwrap().to_rfc3339()
}

} // verus!
