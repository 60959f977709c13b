//! Calendar dates read from the auction pages.

use vstd::prelude::*;
use chrono::Datelike;

verus! {

/// A calendar date.
#[derive(Debug, Clone, Copy, PartialEq, Eq, Structural, PartialOrd, Ord, Hash)]
pub struct Date {
    /// Year.
    pub year: i32,
    /// Month, from 1 to 12.
    pub month: u32,
    /// Day of the month, from 1.
    pub day: u32,
}

/// The date that a page without the field is given: 2000-01-01.
pub open spec fn default_date() -> Date {
    Date { year: 2000, month: 1, day: 1 }
}

/// The date 2000-01-01.
pub fn default_date_exec() -> (r: Date)
    ensures
        r == default_date(),
{
    Date { year: 2000, month: 1, day: 1 }
}

/// What `chrono::NaiveDate::parse_from_str(text, format)` gives, as year,
/// month and day; `None` where it gives an error.
pub uninterp spec fn parsed_date(text: Seq<char>, format: Seq<char>) -> Option<Date>;

/// Calls `chrono::NaiveDate::parse_from_str` and converts the date it
/// returns into its year, month and day.  The result is named
/// `parsed_date` of the two arguments: chrono's parsing depends on them
/// alone.
#[verifier::external_body]
pub(crate) fn parse_date(text: &str, format: &str) -> (r: Option<Date>)
    ensures
        r == parsed_date(text@, format@),
{
    match chrono::NaiveDate::parse_from_str(text, format) {
        Ok(d) => Some(Date { year: d.year(), month: d.month(), day: d.day() }),
        Err(_) => None,
    }
}

} // verus!
