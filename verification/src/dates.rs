//! Dates of birth: a plain calendar-date type, and parsing of the fixed
//! external `DD-MM-YYYY` format.

use vstd::prelude::*;
use chrono::Datelike;

verus! {

/// A calendar date held as plain year, month and day numbers.
///
/// A well-formed value has a month in `1..=12` and a day in `1..=31`;
/// values produced by [`parse_dob`] are additionally real calendar dates
/// (the day exists in that month of that year).
#[derive(Clone, Copy, Debug, PartialEq, Eq, Structural)]
pub struct DateDmy {
    pub year: i32,
    pub month: u32,
    pub day: u32,
}

impl DateDmy {
    /// Basic well-formedness of a calendar date.
    pub open spec fn wf(self) -> bool {
        1 <= self.month <= 12 && 1 <= self.day <= 31
    }
}

/// The calendar date, if any, that the fixed `DD-MM-YYYY` date format
/// assigns to a string: `None` where the string is rejected, and
/// `Some((year, month, day))` where it parses.
pub uninterp spec fn parsed_date(s: Seq<char>) -> Option<(int, int, int)>;

/// The year, month and day of an accepted parse result, as spec integers.
pub open spec fn dmy_view(r: Option<(i32, u32, u32)>) -> Option<(int, int, int)> {
    match r {
        Some(t) => Some((t.0 as int, t.1 as int, t.2 as int)),
        None => None,
    }
}

/// Relies on chrono's `NaiveDate::parse_from_str` with the fixed format
/// string `"%d-%m-%Y"`: which strings parse, and to which date, depends on
/// the string alone, and an accepted `NaiveDate` is a valid calendar date,
/// so its month lies in `1..=12` and its day in `1..=31`.
#[verifier::external_body]
fn parse_dmy(s: &str) -> (r: Option<(i32, u32, u32)>)
    ensures
        parsed_date(s@) == dmy_view(r),
        r matches Some(t) ==> 1 <= t.1 <= 12 && 1 <= t.2 <= 31,
{
    match chrono::NaiveDate::parse_from_str(s, "%d-%m-%Y") {
        Ok(date) => Some((date.year(), date.month(), date.day())),
        Err(_) => None,
    }
}

/// Parses a date of birth against the fixed `DD-MM-YYYY` format.
///
/// Returns `Some` exactly on the strings that the format accepts, and the
/// returned date carries the parsed year, month and day.
pub fn parse_dob(s: &str) -> (r: Option<DateDmy>)
    ensures
        r is None <==> parsed_date(s@) is None,
        r matches Some(d) ==> parsed_date(s@) == Some((d.year as int, d.month as int, d.day as int))
            && d.wf(),
{
    match parse_dmy(s) {
        Some(t) => Some(DateDmy { year: t.0, month: t.1, day: t.2 }),
        None => None,
    }
}

} // verus!
