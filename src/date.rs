//! Calendar dates as day numbers, read and obtained through `chrono`.
use vstd::prelude::*;

use chrono::{Datelike, NaiveDate};

use crate::text::FromText;

verus! {

/// A calendar date, as the number of days since the common era began
/// (0001-01-01 is day 1).  Later dates have larger numbers.
#[derive(Clone, Copy, Debug, PartialEq, Eq, Structural)]
pub struct Date {
    pub days: i32,
}

impl Date {
    /// Whole days from `earlier` to `self`; negative when `self` comes first.
    pub open spec fn days_since_spec(self, earlier: Date) -> int {
        self.days - earlier.days
    }

    /// Whole days from `earlier` to `self`; negative when `self` comes first.
    pub fn days_since(&self, earlier: &Date) -> (r: i64)
        ensures
            r == self.days_since_spec(*earlier),
    {
        self.days as i64 - earlier.days as i64
    }

    /// The date that falls `n` days after day one of the common era.
    pub fn from_days(n: i32) -> (r: Date)
        ensures
            r.days == n,
    {
        Date { days: n }
    }
}

/// The date that `NaiveDate::from_str` reads from a text, when it accepts it.
pub uninterp spec fn date_from_text(s: Seq<char>) -> Option<Date>;

/// Relies on `NaiveDate::from_str` (chrono) to read a `YYYY-MM-DD` date, and
/// on `Datelike::num_days_from_ce` for its day number.
#[verifier::external_body]
pub(crate) fn parse_naive_date(s: &str) -> (r: Option<Date>)
    ensures
        r == date_from_text(s@),
{
    match s.parse::<NaiveDate>() {
        Ok(d) => Some(Date { days: d.num_days_from_ce() }),
        Err(_) => None,
    }
}

/// Relies on `chrono::Utc::now` for the current date in UTC; nothing is
/// known of the value, which depends on the clock.
#[verifier::external_body]
pub(crate) fn today() -> (r: Date) {
    Date { days: chrono::Utc::now().date_naive().num_days_from_ce() }
}

impl FromText for Date {
    open spec fn from_text_spec(s: Seq<char>) -> Option<Date> {
        date_from_text(s)
    }

    open spec fn valid(&self) -> bool {
        true
    }

    fn from_text(s: &str) -> (r: Option<Date>) {
        parse_naive_date(s)
    }
}

} // verus!
