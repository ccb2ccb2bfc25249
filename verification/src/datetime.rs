//! The date and time with which the clock is seeded.

use crate::field::FieldKind;
use vstd::prelude::*;

verus! {

#[verifier::external_type_specification]
#[verifier::external_body]
pub struct ExNaiveDate(chrono::NaiveDate);

#[verifier::external_type_specification]
#[verifier::external_body]
pub struct ExNaiveDateTime(chrono::NaiveDateTime);

/// Whether `year` has a 29th of February in the Gregorian calendar.
pub open spec fn is_leap_year(year: nat) -> bool {
    year % 4 == 0 && (year % 100 != 0 || year % 400 == 0)
}

/// The number of days of a month; 0 where `month` is not a month.
pub open spec fn days_in_month(year: nat, month: nat) -> nat {
    if month == 2 {
        if is_leap_year(year) {
            29
        } else {
            28
        }
    } else if month == 4 || month == 6 || month == 9 || month == 11 {
        30
    } else if 1 <= month <= 12 {
        31
    } else {
        0
    }
}

/// Whether the Gregorian calendar has the day.
pub open spec fn is_calendar_day(year: nat, month: nat, day: nat) -> bool {
    1 <= day <= days_in_month(year, month)
}

/// Whether the three numbers are a time of day, leap seconds left aside.
pub open spec fn is_time_of_day(hour: nat, minute: nat, second: nat) -> bool {
    hour < 24 && minute < 60 && second < 60
}

/// Asks chrono's `NaiveDate::from_ymd_opt` for a day. chrono documents that it
/// answers `None` when the calendar has no such day or the month or day is
/// not one, and for years beyond about 262,000, which a `u16` cannot hold.
#[verifier::external_body]
fn calendar_date(year: u16, month: u8, day: u8) -> (r: Option<chrono::NaiveDate>)
    ensures
        r is Some <==> is_calendar_day(year as nat, month as nat, day as nat),
{
    chrono::NaiveDate::from_ymd_opt(i32::from(year), u32::from(month), u32::from(day))
}

/// Asks chrono's `NaiveDate::and_hms_opt` for a time on a day. chrono answers
/// `None` for an hour of 24 or more, or a minute or second of 60 or more.
#[verifier::external_body]
fn at_time(
    date: &chrono::NaiveDate,
    hour: u8,
    minute: u8,
    second: u8,
) -> (r: Option<chrono::NaiveDateTime>)
    ensures
        r is Some <==> is_time_of_day(hour as nat, minute as nat, second as nat),
{
    date.and_hms_opt(u32::from(hour), u32::from(minute), u32::from(second))
}

/// What a [`DateTimeValue`] stands for.
pub struct DateTimeModel {
    pub year: nat,
    pub month: nat,
    pub day: nat,
    pub hour: nat,
    pub minute: nat,
    pub second: nat,
}

impl DateTimeModel {
    /// A day that the calendar has, in a year that the clock's two year
    /// digits tell apart (2000 to 2099), at a time of day without leap second.
    pub open spec fn valid(self) -> bool {
        &&& 2000 <= self.year <= 2099
        &&& is_calendar_day(self.year, self.month, self.day)
        &&& is_time_of_day(self.hour, self.minute, self.second)
    }

    /// The number that the clock keeps for the field of the given kind. Of
    /// the year it keeps the years since 2000.
    pub open spec fn part(self, kind: FieldKind) -> nat {
        match kind {
            FieldKind::Hour => self.hour,
            FieldKind::Minute => self.minute,
            FieldKind::Second => self.second,
            FieldKind::Year => (self.year - 2000) as nat,
            FieldKind::Month => self.month,
            FieldKind::Day => self.day,
        }
    }
}

/// A calendar date and time of day that the clock can keep.
#[derive(Clone, Copy, Debug, PartialEq, Eq, Structural)]
pub struct DateTimeValue {
    year: u16,
    month: u8,
    day: u8,
    hour: u8,
    minute: u8,
    second: u8,
}

impl View for DateTimeValue {
    type V = DateTimeModel;

    closed spec fn view(&self) -> DateTimeModel {
        DateTimeModel {
            year: self.year as nat,
            month: self.month as nat,
            day: self.day as nat,
            hour: self.hour as nat,
            minute: self.minute as nat,
            second: self.second as nat,
        }
    }
}

impl DateTimeValue {
    /// The invariant of the type: see [`DateTimeModel::valid`].
    pub open spec fn wf(self) -> bool {
        self@.valid()
    }

    /// The value that `model` describes.
    pub closed spec fn of(model: DateTimeModel) -> DateTimeValue {
        DateTimeValue {
            year: model.year as u16,
            month: model.month as u8,
            day: model.day as u8,
            hour: model.hour as u8,
            minute: model.minute as u8,
            second: model.second as u8,
        }
    }

    /// The value that `model` describes, where it describes one.
    pub open spec fn checked(model: DateTimeModel) -> Option<DateTimeValue> {
        if model.valid() {
            Some(DateTimeValue::of(model))
        } else {
            None
        }
    }

    /// Builds a value from its parts. `None` when the year is outside 2000 to
    /// 2099, the calendar has no such day, or the time is not a time of day.
    pub fn new(
        year: u16,
        month: u8,
        day: u8,
        hour: u8,
        minute: u8,
        second: u8,
    ) -> (r: Option<DateTimeValue>)
        ensures
            r == DateTimeValue::checked(
                DateTimeModel {
                    year: year as nat,
                    month: month as nat,
                    day: day as nat,
                    hour: hour as nat,
                    minute: minute as nat,
                    second: second as nat,
                },
            ),
            r matches Some(value) ==> value.wf() && value@ == (DateTimeModel {
                year: year as nat,
                month: month as nat,
                day: day as nat,
                hour: hour as nat,
                minute: minute as nat,
                second: second as nat,
            }),
    {
        if year < 2000 || year > 2099 {
            return None;
        }
        match calendar_date(year, month, day) {
            None => None,
            Some(date) => match at_time(&date, hour, minute, second) {
                None => None,
                Some(_) => Some(DateTimeValue { year, month, day, hour, minute, second }),
            },
        }
    }

    /// The year, 2000 to 2099.
    pub fn year(&self) -> (r: u16)
        ensures
            r == self@.year,
    {
        self.year
    }

    /// The month, 1 to 12.
    pub fn month(&self) -> (r: u8)
        ensures
            r == self@.month,
    {
        self.month
    }

    /// The day of the month, from 1.
    pub fn day(&self) -> (r: u8)
        ensures
            r == self@.day,
    {
        self.day
    }

    /// The hour of the day, 0 to 23.
    pub fn hour(&self) -> (r: u8)
        ensures
            r == self@.hour,
    {
        self.hour
    }

    /// The minute, 0 to 59.
    pub fn minute(&self) -> (r: u8)
        ensures
            r == self@.minute,
    {
        self.minute
    }

    /// The second, 0 to 59.
    pub fn second(&self) -> (r: u8)
        ensures
            r == self@.second,
    {
        self.second
    }
}

} // verus!
