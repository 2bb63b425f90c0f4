//! Calendar dates as plain numbers, and the reading of `YYYY-MM-DD` text.

use crate::decimal::{to_zero_padded, zero_padded};
use chrono::Datelike;
use vstd::prelude::*;
use vstd::string::StringExecFns;

verus! {

/// A calendar date held as year, month and day.
#[derive(Debug, Clone, Copy, PartialEq, Eq, Hash, Structural)]
pub struct CalendarDate {
    pub year: i32,
    pub month: u32,
    pub day: u32,
}

impl CalendarDate {
    /// Month and day lie in the ranges of a calendar: 1 to 12 and 1 to 31.
    pub open spec fn in_calendar_range(self) -> bool {
        &&& 1 <= self.month <= 12
        &&& 1 <= self.day <= 31
    }

    /// The first day of 1970, the value that stands in for a date that could
    /// not be read.
    pub open spec fn spec_epoch() -> CalendarDate {
        CalendarDate { year: 1970, month: 1, day: 1 }
    }

    /// Calendar order: by year, then month, then day.
    pub open spec fn not_after(self, other: CalendarDate) -> bool {
        ||| self.year < other.year
        ||| (self.year == other.year && self.month < other.month)
        ||| (self.year == other.year && self.month == other.month && self.day <= other.day)
    }

    pub fn epoch() -> (d: CalendarDate)
        ensures
            d == Self::spec_epoch(),
            d.in_calendar_range(),
    {
        CalendarDate { year: 1970, month: 1, day: 1 }
    }

    /// Whether `self` is the same day as `other` or an earlier one.
    pub fn is_not_after(&self, other: &CalendarDate) -> (b: bool)
        ensures
            b == self.not_after(*other),
    {
        if self.year != other.year {
            self.year < other.year
        } else if self.month != other.month {
            self.month < other.month
        } else {
            self.day <= other.day
        }
    }

    /// The earlier of two dates; `self` when they are the same day.
    pub fn earlier_of(self, other: CalendarDate) -> (d: CalendarDate)
        ensures
            d == (if self.not_after(other) { self } else { other }),
    {
        if self.is_not_after(&other) {
            self
        } else {
            other
        }
    }

    /// The later of two dates; `self` when they are the same day.
    pub fn later_of(self, other: CalendarDate) -> (d: CalendarDate)
        ensures
            d == (if other.not_after(self) { self } else { other }),
    {
        if other.is_not_after(&self) {
            self
        } else {
            other
        }
    }
}

/// The year of a date in text: four digits with zeros in front for the
/// years 0 to 9999; any other year with its sign in front, `+` or `-`.
pub open spec fn year_text(year: int) -> Seq<char> {
    if 0 <= year <= 9999 {
        zero_padded(year as nat, 4)
    } else if year < 0 {
        "-"@ + zero_padded((-year) as nat, 4)
    } else {
        "+"@ + zero_padded(year as nat, 4)
    }
}

/// A date in text: year, month and day, the last two with two digits,
/// joined by hyphens.
pub open spec fn iso_text(date: CalendarDate) -> Seq<char> {
    year_text(date.year as int) + "-"@ + zero_padded(date.month as nat, 2) + "-"@ + zero_padded(
        date.day as nat,
        2,
    )
}

impl CalendarDate {
    /// Writes the date as `YYYY-MM-DD`.
    pub fn to_iso_string(&self) -> (text: String)
        ensures
            text@ == iso_text(*self),
    {
        let year: i64 = self.year as i64;
        let mut text = if 0 <= year && year <= 9999 {
            to_zero_padded(year as u128, 4)
        } else if year < 0 {
            let digits = to_zero_padded((-year) as u128, 4);
            String::from_str("-").concat(digits.as_str())
        } else {
            let digits = to_zero_padded(year as u128, 4);
            String::from_str("+").concat(digits.as_str())
        };
        let month = to_zero_padded(self.month as u128, 2);
        let day = to_zero_padded(self.day as u128, 2);
        text.append("-");
        text.append(month.as_str());
        text.append("-");
        text.append(day.as_str());
        text
    }
}

/// Calendar order is reflexive.
pub proof fn lemma_not_after_reflexive(a: CalendarDate)
    ensures
        a.not_after(a),
{
}

/// Calendar order is transitive.
pub proof fn lemma_not_after_transitive(a: CalendarDate, b: CalendarDate, c: CalendarDate)
    requires
        a.not_after(b),
        b.not_after(c),
    ensures
        a.not_after(c),
{
}

/// Any two dates are ordered one way or the other.
pub proof fn lemma_not_after_total(a: CalendarDate, b: CalendarDate)
    ensures
        a.not_after(b) || b.not_after(a),
{
}

/// Two dates that are each not after the other are the same date.
pub proof fn lemma_not_after_antisymmetric(a: CalendarDate, b: CalendarDate)
    requires
        a.not_after(b),
        b.not_after(a),
    ensures
        a == b,
{
}

/// What `chrono::NaiveDate::parse_from_str` with the format `%Y-%m-%d` makes
/// of a text: the year, month and day of the date it reads, or `None` where
/// it reports a parse error.
pub uninterp spec fn parsed_ymd(text: Seq<char>) -> Option<(i32, u32, u32)>;

/// The date that `parsed_ymd` reads from a text, as a `CalendarDate`.
pub open spec fn parsed_date(text: Seq<char>) -> Option<CalendarDate> {
    match parsed_ymd(text) {
        Some((year, month, day)) => Some(CalendarDate { year, month, day }),
        None => None,
    }
}

/// Calls `chrono::NaiveDate::parse_from_str(text, "%Y-%m-%d")` and hands the
/// date out by its `year()`, `month()` and `day()`. Trusted: the result is
/// the named value `parsed_ymd` of the text, and, as chrono documents for
/// `Datelike::month` and `Datelike::day`, a date that was read has its month
/// in 1..=12 and its day in 1..=31.
#[verifier::external_body]
fn parse_ymd(text: &str) -> (r: Option<CalendarDate>)
    ensures
        r is Some <==> parsed_ymd(text@) is Some,
        r matches Some(d) ==> parsed_ymd(text@) == Some((d.year, d.month, d.day))
            && d.in_calendar_range(),
{
    match chrono::NaiveDate::parse_from_str(text, "%Y-%m-%d") {
        Ok(d) => Some(CalendarDate { year: d.year(), month: d.month(), day: d.day() }),
        Err(_) => None,
    }
}

/// The date to work with once a text has been read: the date itself, or the
/// epoch where reading failed.
pub open spec fn resolved_date(parsed: Option<CalendarDate>) -> CalendarDate {
    match parsed {
        Some(d) => d,
        None => CalendarDate::spec_epoch(),
    }
}

/// Substitutes the epoch for a date that could not be read.
pub fn resolve_date(parsed: Option<CalendarDate>) -> (d: CalendarDate)
    ensures
        d == resolved_date(parsed),
{
    match parsed {
        Some(d) => d,
        None => CalendarDate::epoch(),
    }
}

/// The date that a `YYYY-MM-DD` text stands for, with the epoch in place of
/// a text that does not parse. Never fails.
pub open spec fn date_of_text(text: Seq<char>) -> CalendarDate {
    resolved_date(parsed_date(text))
}

/// Reads a `YYYY-MM-DD` text; a malformed text yields the epoch.
pub fn date_or_epoch(text: &str) -> (d: CalendarDate)
    ensures
        d == date_of_text(text@),
        d.in_calendar_range(),
{
    resolve_date(parse_ymd(text))
}

} // verus!
