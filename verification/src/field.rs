//! The fields of a clock reading, each kept as the two decimal digits in
//! which the clock stores it.

use vstd::prelude::*;

verus! {

/// One of the six fields that the readout takes from the clock.
#[derive(Clone, Copy, Debug, PartialEq, Eq, Structural)]
pub enum FieldKind {
    Hour,
    Minute,
    Second,
    Year,
    Month,
    Day,
}

impl FieldKind {
    /// The smallest value of a field of this kind.
    pub open spec fn lowest(self) -> nat {
        match self {
            FieldKind::Month | FieldKind::Day => 1,
            _ => 0,
        }
    }

    /// The largest value of a field of this kind. A year is kept by its last
    /// two digits.
    pub open spec fn highest(self) -> nat {
        match self {
            FieldKind::Hour => 23,
            FieldKind::Minute => 59,
            FieldKind::Second => 59,
            FieldKind::Year => 99,
            FieldKind::Month => 12,
            FieldKind::Day => 31,
        }
    }

    /// Whether `value` is one that a field of this kind can take.
    pub open spec fn admits(self, value: nat) -> bool {
        self.lowest() <= value <= self.highest()
    }

    /// The smallest value of a field of this kind.
    pub fn min_value(&self) -> (r: u8)
        ensures
            r == self.lowest(),
    {
        match self {
            FieldKind::Month | FieldKind::Day => 1,
            _ => 0,
        }
    }

    /// The largest value of a field of this kind.
    pub fn max_value(&self) -> (r: u8)
        ensures
            r == self.highest(),
    {
        match self {
            FieldKind::Hour => 23,
            FieldKind::Minute => 59,
            FieldKind::Second => 59,
            FieldKind::Year => 99,
            FieldKind::Month => 12,
            FieldKind::Day => 31,
        }
    }
}

/// What a [`TimeField`] stands for: a kind and two digits.
pub struct FieldModel {
    pub kind: FieldKind,
    pub tens: nat,
    pub units: nat,
}

impl FieldModel {
    /// The number that the two digits spell.
    pub open spec fn value(self) -> nat {
        10 * self.tens + self.units
    }

    /// Both digits are decimal digits, and together they spell a value that
    /// the kind admits.
    pub open spec fn valid(self) -> bool {
        &&& self.tens <= 9
        &&& self.units <= 9
        &&& self.kind.admits(self.value())
    }
}

/// One field of a clock reading: the tens digit and the units digit, never
/// folded into one number.
#[derive(Clone, Copy, Debug, PartialEq, Eq, Structural)]
pub struct TimeField {
    kind: FieldKind,
    tens: u8,
    units: u8,
}

impl View for TimeField {
    type V = FieldModel;

    closed spec fn view(&self) -> FieldModel {
        FieldModel { kind: self.kind, tens: self.tens as nat, units: self.units as nat }
    }
}

impl TimeField {
    /// The invariant of the type: see [`FieldModel::valid`].
    pub open spec fn wf(self) -> bool {
        self@.valid()
    }

    /// The field that `model` describes.
    pub closed spec fn of(model: FieldModel) -> TimeField {
        TimeField { kind: model.kind, tens: model.tens as u8, units: model.units as u8 }
    }

    /// `of` and the view undo each other on digits that fit a byte.
    pub proof fn lemma_of(model: FieldModel)
        requires
            model.tens <= 255,
            model.units <= 255,
        ensures
            TimeField::of(model)@ == model,
    {
    }

    /// The field that `model` describes, where it describes one.
    pub open spec fn checked(model: FieldModel) -> Option<TimeField> {
        if model.valid() {
            Some(TimeField::of(model))
        } else {
            None
        }
    }

    /// Builds a field from its digits. `None` when a digit is above 9 or the
    /// value that they spell is outside the kind's range.
    pub fn new(kind: FieldKind, tens: u8, units: u8) -> (r: Option<TimeField>)
        ensures
            r == TimeField::checked(
                FieldModel { kind, tens: tens as nat, units: units as nat },
            ),
            r matches Some(f) ==> f.wf() && f@ == (FieldModel {
                kind,
                tens: tens as nat,
                units: units as nat,
            }),
    {
        if tens > 9 || units > 9 {
            return None;
        }
        let value: u8 = 10 * tens + units;
        if value < kind.min_value() || value > kind.max_value() {
            return None;
        }
        Some(TimeField { kind, tens, units })
    }

    /// The splitting of `value` into its two digits. `None` when the kind does
    /// not admit `value`.
    pub fn from_value(kind: FieldKind, value: u8) -> (r: Option<TimeField>)
        ensures
            r == TimeField::checked(
                FieldModel { kind, tens: value as nat / 10, units: value as nat % 10 },
            ),
            r is Some <==> kind.admits(value as nat),
            r matches Some(f) ==> f.wf() && f@.kind == kind && f@.value() == value,
    {
        if value < kind.min_value() || value > kind.max_value() {
            return None;
        }
        Some(TimeField { kind, tens: value / 10, units: value % 10 })
    }

    /// Which field this is.
    pub fn kind(&self) -> (r: FieldKind)
        ensures
            r == self@.kind,
    {
        self.kind
    }

    /// The tens digit.
    pub fn tens(&self) -> (r: u8)
        ensures
            r == self@.tens,
    {
        self.tens
    }

    /// The units digit.
    pub fn units(&self) -> (r: u8)
        ensures
            r == self@.units,
    {
        self.units
    }

    /// The number that the two digits spell.
    pub fn value(&self) -> (r: u8)
        requires
            self.wf(),
        ensures
            r == self@.value(),
    {
        10 * self.tens + self.units
    }
}

/// What a [`ClockReading`] stands for: one field of each kind.
pub struct ReadingModel {
    pub hour: TimeField,
    pub minute: TimeField,
    pub second: TimeField,
    pub year: TimeField,
    pub month: TimeField,
    pub day: TimeField,
}

impl ReadingModel {
    /// Every field is well formed and sits in the slot of its kind.
    pub open spec fn valid(self) -> bool {
        &&& self.hour.wf() && self.hour@.kind == FieldKind::Hour
        &&& self.minute.wf() && self.minute@.kind == FieldKind::Minute
        &&& self.second.wf() && self.second@.kind == FieldKind::Second
        &&& self.year.wf() && self.year@.kind == FieldKind::Year
        &&& self.month.wf() && self.month@.kind == FieldKind::Month
        &&& self.day.wf() && self.day@.kind == FieldKind::Day
    }

    /// The field of the given kind.
    pub open spec fn field(self, kind: FieldKind) -> TimeField {
        match kind {
            FieldKind::Hour => self.hour,
            FieldKind::Minute => self.minute,
            FieldKind::Second => self.second,
            FieldKind::Year => self.year,
            FieldKind::Month => self.month,
            FieldKind::Day => self.day,
        }
    }
}

/// The six fields taken from the clock in one readout cycle. They come from
/// six separate reads, so nothing ties them to one instant or to one
/// calendar day.
#[derive(Clone, Copy, Debug, PartialEq, Eq, Structural)]
pub struct ClockReading {
    hour: TimeField,
    minute: TimeField,
    second: TimeField,
    year: TimeField,
    month: TimeField,
    day: TimeField,
}

impl View for ClockReading {
    type V = ReadingModel;

    closed spec fn view(&self) -> ReadingModel {
        ReadingModel {
            hour: self.hour,
            minute: self.minute,
            second: self.second,
            year: self.year,
            month: self.month,
            day: self.day,
        }
    }
}

impl ClockReading {
    /// The invariant of the type: see [`ReadingModel::valid`].
    pub open spec fn wf(self) -> bool {
        self@.valid()
    }

    /// The reading that `model` describes.
    pub closed spec fn of(model: ReadingModel) -> ClockReading {
        ClockReading {
            hour: model.hour,
            minute: model.minute,
            second: model.second,
            year: model.year,
            month: model.month,
            day: model.day,
        }
    }

    /// `of` and the view undo each other.
    pub proof fn lemma_of(model: ReadingModel)
        ensures
            ClockReading::of(model)@ == model,
    {
    }

    /// The reading that `model` describes, where it describes one.
    pub open spec fn checked(model: ReadingModel) -> Option<ClockReading> {
        if model.valid() {
            Some(ClockReading::of(model))
        } else {
            None
        }
    }

    /// Puts six fields together. `None` when one of them is not of the kind
    /// that its position asks for.
    pub fn new(
        hour: TimeField,
        minute: TimeField,
        second: TimeField,
        year: TimeField,
        month: TimeField,
        day: TimeField,
    ) -> (r: Option<ClockReading>)
        requires
            hour.wf(),
            minute.wf(),
            second.wf(),
            year.wf(),
            month.wf(),
            day.wf(),
        ensures
            r == ClockReading::checked(ReadingModel { hour, minute, second, year, month, day }),
            r matches Some(reading) ==> reading.wf() && reading@ == (ReadingModel {
                hour,
                minute,
                second,
                year,
                month,
                day,
            }),
    {
        let in_place: bool = hour.kind() == FieldKind::Hour && minute.kind() == FieldKind::Minute
            && second.kind() == FieldKind::Second && year.kind() == FieldKind::Year
            && month.kind() == FieldKind::Month && day.kind() == FieldKind::Day;
        if in_place {
            Some(ClockReading { hour, minute, second, year, month, day })
        } else {
            None
        }
    }

    /// The field of the given kind.
    pub fn field(&self, kind: FieldKind) -> (r: TimeField)
        ensures
            r == self@.field(kind),
    {
        match kind {
            FieldKind::Hour => self.hour,
            FieldKind::Minute => self.minute,
            FieldKind::Second => self.second,
            FieldKind::Year => self.year,
            FieldKind::Month => self.month,
            FieldKind::Day => self.day,
        }
    }
}

} // verus!
