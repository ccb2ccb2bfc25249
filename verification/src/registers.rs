//! The clock's time registers: how a register byte is taken apart into the
//! digits of a field, and which bytes stand for a date and time.
//!
//! The bytes are taken apart by the accessors of the `ds3231` driver crate.
//! Each accessor has a small function here that calls it and states which
//! bits it returns; those statements are believed, not proved.

use crate::config::TimeRepresentation;
use crate::datetime::{DateTimeModel, DateTimeValue};
use crate::field::{FieldKind, FieldModel, TimeField};
use vstd::prelude::*;

verus! {

/// `Seconds::ten_seconds` of the driver: bits 4 to 6 of the seconds register.
#[verifier::external_body]
fn seconds_tens(raw: u8) -> (r: u8)
    ensures
        r == (raw >> 4) & 0x07,
{
    ds3231::Seconds::from(raw).ten_seconds()
}

/// `Seconds::seconds` of the driver: bits 0 to 3 of the seconds register.
#[verifier::external_body]
fn seconds_units(raw: u8) -> (r: u8)
    ensures
        r == raw & 0x0f,
{
    ds3231::Seconds::from(raw).seconds()
}

/// `Minutes::ten_minutes` of the driver: bits 4 to 6 of the minutes register.
#[verifier::external_body]
fn minutes_tens(raw: u8) -> (r: u8)
    ensures
        r == (raw >> 4) & 0x07,
{
    ds3231::Minutes::from(raw).ten_minutes()
}

/// `Minutes::minutes` of the driver: bits 0 to 3 of the minutes register.
#[verifier::external_body]
fn minutes_units(raw: u8) -> (r: u8)
    ensures
        r == raw & 0x0f,
{
    ds3231::Minutes::from(raw).minutes()
}

/// `Hours::time_representation` of the driver: bit 6 of the hours register,
/// set for the 12-hour count.
#[verifier::external_body]
fn hours_representation(raw: u8) -> (r: TimeRepresentation)
    ensures
        r == representation_bit(raw),
{
    match ds3231::Hours::from(raw).time_representation() {
        ds3231::TimeRepresentation::TwentyFourHour => TimeRepresentation::TwentyFourHour,
        ds3231::TimeRepresentation::TwelveHour => TimeRepresentation::TwelveHour,
    }
}

/// `Hours::pm_or_twenty_hours` of the driver: bit 5 of the hours register.
#[verifier::external_body]
fn hours_twenty_or_pm(raw: u8) -> (r: u8)
    ensures
        r == (raw >> 5) & 0x01,
{
    ds3231::Hours::from(raw).pm_or_twenty_hours()
}

/// `Hours::ten_hours` of the driver: bit 4 of the hours register.
#[verifier::external_body]
fn hours_ten(raw: u8) -> (r: u8)
    ensures
        r == (raw >> 4) & 0x01,
{
    ds3231::Hours::from(raw).ten_hours()
}

/// `Hours::hours` of the driver: bits 0 to 3 of the hours register.
#[verifier::external_body]
fn hours_units(raw: u8) -> (r: u8)
    ensures
        r == raw & 0x0f,
{
    ds3231::Hours::from(raw).hours()
}

/// `Date::ten_date` of the driver: bits 4 and 5 of the date register.
#[verifier::external_body]
fn date_tens(raw: u8) -> (r: u8)
    ensures
        r == (raw >> 4) & 0x03,
{
    ds3231::Date::from(raw).ten_date()
}

/// `Date::date` of the driver: bits 0 to 3 of the date register.
#[verifier::external_body]
fn date_units(raw: u8) -> (r: u8)
    ensures
        r == raw & 0x0f,
{
    ds3231::Date::from(raw).date()
}

/// `Month::ten_month` of the driver: bit 4 of the month register.
#[verifier::external_body]
fn month_tens(raw: u8) -> (r: u8)
    ensures
        r == (raw >> 4) & 0x01,
{
    ds3231::Month::from(raw).ten_month()
}

/// `Month::month` of the driver: bits 0 to 3 of the month register.
#[verifier::external_body]
fn month_units(raw: u8) -> (r: u8)
    ensures
        r == raw & 0x0f,
{
    ds3231::Month::from(raw).month()
}

/// `Year::ten_year` of the driver: bits 4 to 7 of the year register.
#[verifier::external_body]
fn year_tens(raw: u8) -> (r: u8)
    ensures
        r == (raw >> 4) & 0x0f,
{
    ds3231::Year::from(raw).ten_year()
}

/// `Year::year` of the driver: bits 0 to 3 of the year register.
#[verifier::external_body]
fn year_units(raw: u8) -> (r: u8)
    ensures
        r == raw & 0x0f,
{
    ds3231::Year::from(raw).year()
}

/// The count of hours that bit 6 of the hours register selects.
pub open spec fn representation_bit(raw: u8) -> TimeRepresentation {
    if (raw >> 6) & 0x01 == 1 {
        TimeRepresentation::TwelveHour
    } else {
        TimeRepresentation::TwentyFourHour
    }
}

/// The hour of the day that the hours register holds, as a field.
///
/// In the 24-hour count bits 4 and 5 are the tens digit. In the 12-hour count
/// bit 4 is the tens digit of an hour from 1 to 12 and bit 5 marks the
/// afternoon; twelve o'clock is noon with the mark and midnight without.
pub open spec fn decoded_hour(raw: u8) -> Option<TimeField> {
    let mark = ((raw >> 5) & 0x01) as nat;
    let ten = ((raw >> 4) & 0x01) as nat;
    let units = (raw & 0x0f) as nat;
    match representation_bit(raw) {
        TimeRepresentation::TwentyFourHour => TimeField::checked(
            FieldModel { kind: FieldKind::Hour, tens: 2 * mark + ten, units },
        ),
        TimeRepresentation::TwelveHour => {
            let half: nat = 10 * ten + units;
            if units <= 9 && 1 <= half <= 12 {
                let hour: nat = half % 12 + 12 * mark;
                TimeField::checked(
                    FieldModel { kind: FieldKind::Hour, tens: hour / 10, units: hour % 10 },
                )
            } else {
                None
            }
        },
    }
}

/// The field of the given kind that a register byte holds; `None` where the
/// byte holds no such field. The low four bits are the units digit, the bits
/// above them the tens digit, as many as the kind has.
pub open spec fn decoded(kind: FieldKind, raw: u8) -> Option<TimeField> {
    let units = (raw & 0x0f) as nat;
    match kind {
        FieldKind::Hour => decoded_hour(raw),
        FieldKind::Minute | FieldKind::Second => TimeField::checked(
            FieldModel { kind, tens: ((raw >> 4) & 0x07) as nat, units },
        ),
        FieldKind::Year => TimeField::checked(
            FieldModel { kind, tens: ((raw >> 4) & 0x0f) as nat, units },
        ),
        FieldKind::Month => TimeField::checked(
            FieldModel { kind, tens: ((raw >> 4) & 0x01) as nat, units },
        ),
        FieldKind::Day => TimeField::checked(
            FieldModel { kind, tens: ((raw >> 4) & 0x03) as nat, units },
        ),
    }
}

/// Takes the hour of the day from the hours register.
fn decode_hour(raw: u8) -> (r: Option<TimeField>)
    ensures
        r == decoded_hour(raw),
        r matches Some(f) ==> f.wf() && f@.kind == FieldKind::Hour,
{
    let mark: u8 = hours_twenty_or_pm(raw);
    let ten: u8 = hours_ten(raw);
    let units: u8 = hours_units(raw);
    assert((raw >> 5) & 0x01 <= 1 && (raw >> 4) & 0x01 <= 1 && raw & 0x0f <= 15) by (bit_vector);
    match hours_representation(raw) {
        TimeRepresentation::TwentyFourHour => TimeField::new(FieldKind::Hour, 2 * mark + ten, units),
        TimeRepresentation::TwelveHour => {
            let half: u8 = 10 * ten + units;
            if units <= 9 && 1 <= half && half <= 12 {
                let hour: u8 = half % 12 + 12 * mark;
                TimeField::from_value(FieldKind::Hour, hour)
            } else {
                None
            }
        },
    }
}

/// Takes the field of the given kind from the byte read from its register.
/// `None` when the byte does not hold two decimal digits, or holds a value
/// that the kind does not admit.
pub fn decode(kind: FieldKind, raw: u8) -> (r: Option<TimeField>)
    ensures
        r == decoded(kind, raw),
        r matches Some(f) ==> f.wf() && f@.kind == kind,
{
    match kind {
        FieldKind::Hour => decode_hour(raw),
        FieldKind::Minute => TimeField::new(kind, minutes_tens(raw), minutes_units(raw)),
        FieldKind::Second => TimeField::new(kind, seconds_tens(raw), seconds_units(raw)),
        FieldKind::Year => TimeField::new(kind, year_tens(raw), year_units(raw)),
        FieldKind::Month => TimeField::new(kind, month_tens(raw), month_units(raw)),
        FieldKind::Day => TimeField::new(kind, date_tens(raw), date_units(raw)),
    }
}

/// A register that decodes gives a well-formed field of the kind asked for.
pub proof fn lemma_decoded(kind: FieldKind, raw: u8)
    ensures
        decoded(kind, raw) matches Some(field) ==> field.wf() && field@.kind == kind,
{
    assert((raw >> 4) & 0x0f <= 15 && (raw >> 4) & 0x07 <= 7 && (raw >> 4) & 0x03 <= 3 && (raw
        >> 4) & 0x01 <= 1 && (raw >> 5) & 0x01 <= 1 && raw & 0x0f <= 15) by (bit_vector);
    if let Some(field) = decoded(kind, raw) {
        let model = choose|model: FieldModel|
            model.valid() && model.kind == kind && field == TimeField::of(model);
        TimeField::lemma_of(model);
    }
}

/// The six time registers that the readout reads, byte by byte.
#[derive(Clone, Copy, Debug, PartialEq, Eq, Structural)]
pub struct TimeRegisters {
    pub seconds: u8,
    pub minutes: u8,
    pub hours: u8,
    pub date: u8,
    pub month: u8,
    pub year: u8,
}

impl TimeRegisters {
    /// The byte of the register that holds the field of the given kind.
    pub open spec fn byte(self, kind: FieldKind) -> u8 {
        match kind {
            FieldKind::Hour => self.hours,
            FieldKind::Minute => self.minutes,
            FieldKind::Second => self.seconds,
            FieldKind::Year => self.year,
            FieldKind::Month => self.month,
            FieldKind::Day => self.date,
        }
    }

    /// The byte of the register that holds the field of the given kind.
    pub fn register(&self, kind: FieldKind) -> (r: u8)
        ensures
            r == self.byte(kind),
    {
        match kind {
            FieldKind::Hour => self.hours,
            FieldKind::Minute => self.minutes,
            FieldKind::Second => self.seconds,
            FieldKind::Year => self.year,
            FieldKind::Month => self.month,
            FieldKind::Day => self.date,
        }
    }
}

/// A number below 100 as two decimal digits in one byte: the tens digit in
/// the high four bits, the units digit in the low four.
pub open spec fn packed(value: nat) -> nat {
    16 * (value / 10) + value % 10
}

/// The hour from 1 to 12 that a 12-hour clock shows at `hour` of the day.
pub open spec fn half_day_hour(hour: nat) -> nat {
    if hour % 12 == 0 {
        12
    } else {
        hour % 12
    }
}

/// The byte in the hours register when the clock stands at `hour` of the day.
/// Bit 6 is set in the 12-hour count, and bit 5 then marks the afternoon.
pub open spec fn hours_byte(hour: nat, representation: TimeRepresentation) -> nat {
    match representation {
        TimeRepresentation::TwentyFourHour => packed(hour),
        TimeRepresentation::TwelveHour => 64 + (if hour >= 12 {
            32nat
        } else {
            0nat
        }) + packed(half_day_hour(hour)),
    }
}

/// The bytes in the six registers once the clock has been set to `value`.
pub open spec fn register_image(
    value: DateTimeModel,
    representation: TimeRepresentation,
) -> TimeRegisters {
    TimeRegisters {
        seconds: packed(value.second) as u8,
        minutes: packed(value.minute) as u8,
        hours: hours_byte(value.hour, representation) as u8,
        date: packed(value.day) as u8,
        month: packed(value.month) as u8,
        year: packed(value.part(FieldKind::Year)) as u8,
    }
}

/// Packs a number below 100 into a byte.
fn pack(value: u8) -> (r: u8)
    requires
        value <= 99,
    ensures
        r == packed(value as nat),
{
    16 * (value / 10) + value % 10
}

/// The bytes in the six registers once the clock has been set to `value`.
pub fn time_registers(
    value: &DateTimeValue,
    representation: TimeRepresentation,
) -> (r: TimeRegisters)
    requires
        value.wf(),
    ensures
        r == register_image(value@, representation),
{
    let hour: u8 = value.hour();
    let hours: u8 = match representation {
        TimeRepresentation::TwentyFourHour => pack(hour),
        TimeRepresentation::TwelveHour => {
            let half: u8 = if hour % 12 == 0 {
                12
            } else {
                hour % 12
            };
            let mark: u8 = if hour >= 12 {
                32
            } else {
                0
            };
            64 + mark + pack(half)
        },
    };
    let years: u16 = value.year() - 2000;
    TimeRegisters {
        seconds: pack(value.second()),
        minutes: pack(value.minute()),
        hours,
        date: pack(value.day()),
        month: pack(value.month()),
        year: pack(years as u8),
    }
}

/// Where two digits are packed in a byte, the bits above the low four are the
/// tens digit and the low four the units digit.
proof fn lemma_packed_bits(tens: u8, units: u8, raw: u8)
    by (bit_vector)
    requires
        tens <= 9,
        units <= 9,
        raw == 16 * tens + units,
    ensures
        raw & 0x0f == units,
        (raw >> 4) & 0x0f == tens,
        tens <= 7 ==> (raw >> 4) & 0x07 == tens,
        tens <= 3 ==> (raw >> 4) & 0x03 == tens,
        tens <= 1 ==> (raw >> 4) & 0x01 == tens,
        tens <= 3 ==> (raw >> 6) & 0x01 == 0,
        tens <= 3 ==> 2 * ((raw >> 5) & 0x01) + ((raw >> 4) & 0x01) == tens,
{
}

/// The bits of an hours byte in the 12-hour count.
proof fn lemma_half_day_bits(mark: u8, ten: u8, units: u8, raw: u8)
    by (bit_vector)
    requires
        mark <= 1,
        ten <= 1,
        units <= 9,
        raw == 64 + 32 * mark + 16 * ten + units,
    ensures
        (raw >> 6) & 0x01 == 1,
        (raw >> 5) & 0x01 == mark,
        (raw >> 4) & 0x01 == ten,
        raw & 0x0f == units,
{
}

/// Setting the clock and reading a field back gives the digits of what was
/// set: for every date and time that the clock can keep, in either count of
/// hours, the register of each kind decodes to a field of that kind whose two
/// digits spell the number that was written. The hour comes back as the hour
/// of the day in both counts, the year as the years since 2000.
pub proof fn law_round_trip(
    value: DateTimeValue,
    representation: TimeRepresentation,
    kind: FieldKind,
)
    requires
        value.wf(),
    ensures
        decoded(kind, register_image(value@, representation).byte(kind)) == TimeField::checked(
            FieldModel { kind, tens: value@.part(kind) / 10, units: value@.part(kind) % 10 },
        ),
        decoded(kind, register_image(value@, representation).byte(kind)) matches Some(field)
            && field.wf() && field@.kind == kind && field@.value() == value@.part(kind),
{
    let number: nat = value@.part(kind);
    let model = FieldModel { kind, tens: number / 10, units: number % 10 };
    assert(model.valid());
    TimeField::lemma_of(model);
    let raw: u8 = register_image(value@, representation).byte(kind);
    if kind == FieldKind::Hour && representation == TimeRepresentation::TwelveHour {
        let half: nat = half_day_hour(number);
        let mark: u8 = if number >= 12 {
            1
        } else {
            0
        };
        lemma_half_day_bits(mark, (half / 10) as u8, (half % 10) as u8, raw);
    } else {
        lemma_packed_bits((number / 10) as u8, (number % 10) as u8, raw);
    }
}

} // verus!
