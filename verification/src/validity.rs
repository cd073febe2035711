//! Point-in-time validity of reference data: the period for which a record
//! was the latest one for its instrument.

use vstd::prelude::*;
use crate::model::{ReferenceData, ReferenceDataView};
use crate::scalar::Date;

verus! {

/// Whether a year is a leap year of the Gregorian calendar.
pub open spec fn is_leap_year(year: int) -> bool {
    year % 4 == 0 && (year % 100 != 0 || year % 400 == 0)
}

/// The number of days of a month; zero for a number that is no month.
pub open spec fn days_in_month(year: int, month: int) -> int {
    if month == 2 {
        if is_leap_year(year) {
            29
        } else {
            28
        }
    } else if month == 4 || month == 6 || month == 9 || month == 11 {
        30
    } else if 1 <= month <= 12 {
        31
    } else {
        0
    }
}

/// Whether a date is a day of the Gregorian calendar.
pub open spec fn is_calendar_date(date: Date) -> bool {
    1 <= date.month <= 12 && 1 <= date.day <= days_in_month(date.year as int, date.month as int)
}

/// The day before a day of the calendar; nothing for a date that is no day of
/// the calendar, or whose eve lies in a year that cannot be written.
pub open spec fn eve_of(date: Date) -> Option<Date> {
    if !is_calendar_date(date) {
        None
    } else if date.day > 1 {
        Some(Date { year: date.year, month: date.month, day: (date.day - 1) as u32 })
    } else if date.month > 1 {
        Some(
            Date {
                year: date.year,
                month: (date.month - 1) as u32,
                day: days_in_month(date.year as int, date.month - 1) as u32,
            },
        )
    } else if date.year > i32::MIN {
        Some(Date { year: (date.year - 1) as i32, month: 12, day: 31 })
    } else {
        None
    }
}

/// The number of days of a month.
fn month_length(year: i32, month: u32) -> (r: u32)
    ensures
        r == days_in_month(year as int, month as int),
{
    if month == 2 {
        // The calendar repeats every 400 years: count from a year that is far
        // enough back for the count not to be negative.
        let y: u64 = (year as i64 + 2147484000) as u64;
        assert(y % 4 == 0 <==> year as int % 4 == 0);
        assert(y % 100 == 0 <==> year as int % 100 == 0);
        assert(y % 400 == 0 <==> year as int % 400 == 0);
        if y % 4 == 0 && (y % 100 != 0 || y % 400 == 0) {
            29
        } else {
            28
        }
    } else if month == 4 || month == 6 || month == 9 || month == 11 {
        30
    } else if 1 <= month && month <= 12 {
        31
    } else {
        0
    }
}

/// The day before the given day.
pub fn day_before(date: Date) -> (r: Option<Date>)
    ensures
        r == eve_of(date),
        r is Some ==> is_calendar_date(r->0),
{
    if date.month < 1 || date.month > 12 || date.day < 1 || date.day > month_length(
        date.year,
        date.month,
    ) {
        None
    } else if date.day > 1 {
        Some(Date { year: date.year, month: date.month, day: date.day - 1 })
    } else if date.month > 1 {
        Some(
            Date {
                year: date.year,
                month: date.month - 1,
                day: month_length(date.year, date.month - 1),
            },
        )
    } else if date.year > i32::MIN {
        Some(Date { year: date.year - 1, month: 12, day: 31 })
    } else {
        None
    }
}

/// Reference data together with the period for which it is valid.
#[derive(Debug, Clone, PartialEq, Eq)]
pub struct RefDataDbEntry {
    /// The reference data itself.
    pub ref_data: ReferenceData,
    /// Whether this is the latest record of the instrument.
    pub latest_record: bool,
    /// The first day on which the record is valid.
    pub valid_from: Date,
    /// The last day on which the record was valid, if it is no longer.
    pub valid_to: Option<Date>,
}

/// Mathematical view of a [`RefDataDbEntry`].
pub ghost struct RefDataDbEntryView {
    pub ref_data: ReferenceDataView,
    pub latest_record: bool,
    pub valid_from: Date,
    pub valid_to: Option<Date>,
}

impl DeepView for RefDataDbEntry {
    type V = RefDataDbEntryView;

    open spec fn deep_view(&self) -> RefDataDbEntryView {
        RefDataDbEntryView {
            ref_data: self.ref_data.deep_view(),
            latest_record: self.latest_record,
            valid_from: self.valid_from,
            valid_to: self.valid_to,
        }
    }
}

impl RefDataDbEntry {
    /// An entry with the given period of validity.
    pub fn new(
        ref_data: ReferenceData,
        latest_record: bool,
        valid_from: Date,
        valid_to: Option<Date>,
    ) -> (r: Self)
        ensures
            r.deep_view() == (RefDataDbEntryView {
                ref_data: ref_data.deep_view(),
                latest_record,
                valid_from,
                valid_to,
            }),
    {
        RefDataDbEntry { ref_data, latest_record, valid_from, valid_to }
    }

    /// The entry for the latest record of an instrument: valid from the given
    /// day on, without an end.
    pub fn new_latest(ref_data: ReferenceData, valid_from: Date) -> (r: Self)
        ensures
            r.deep_view() == (RefDataDbEntryView {
                ref_data: ref_data.deep_view(),
                latest_record: true,
                valid_from,
                valid_to: None,
            }),
    {
        RefDataDbEntry { ref_data, latest_record: true, valid_from, valid_to: None }
    }

    /// The last day on which the record before this one was valid: the day
    /// before this one became valid.
    pub fn previous_valid_to(&self) -> (r: Option<Date>)
        ensures
            r == eve_of(self.valid_from),
    {
        day_before(self.valid_from)
    }
}

} // verus!
