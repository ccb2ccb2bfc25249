//! The lines that the firmware writes to its output.

use crate::field::{ClockReading, FieldKind, ReadingModel, TimeField};
use vstd::prelude::*;
use vstd::string::*;

verus! {

/// Something to report on the output, one line each.
#[derive(Clone, Copy, Debug, PartialEq, Eq, Structural)]
pub enum Message {
    /// The clock did not take its configuration.
    ConfigFailed,
    /// The clock has been set.
    DateTimeSet,
    /// The clock could not be set.
    DateTimeSetFailed,
    /// The time and date just read.
    Reading(ClockReading),
}

/// The character for a decimal digit.
pub open spec fn digit_char(digit: nat) -> char {
    if digit == 0 {
        '0'
    } else if digit == 1 {
        '1'
    } else if digit == 2 {
        '2'
    } else if digit == 3 {
        '3'
    } else if digit == 4 {
        '4'
    } else if digit == 5 {
        '5'
    } else if digit == 6 {
        '6'
    } else if digit == 7 {
        '7'
    } else if digit == 8 {
        '8'
    } else {
        '9'
    }
}

/// The line for a reading: `HH:MM:SS YY-MM-DD`, each pair the tens digit and
/// the units digit of a field as they were read.
pub open spec fn reading_line(reading: ReadingModel) -> Seq<char> {
    seq![
        digit_char(reading.hour@.tens),
        digit_char(reading.hour@.units),
        ':',
        digit_char(reading.minute@.tens),
        digit_char(reading.minute@.units),
        ':',
        digit_char(reading.second@.tens),
        digit_char(reading.second@.units),
        ' ',
        digit_char(reading.year@.tens),
        digit_char(reading.year@.units),
        '-',
        digit_char(reading.month@.tens),
        digit_char(reading.month@.units),
        '-',
        digit_char(reading.day@.tens),
        digit_char(reading.day@.units),
    ]
}

/// The text of one decimal digit.
fn digit_text(digit: u8) -> (r: &'static str)
    requires
        digit <= 9,
    ensures
        r@ == seq![digit_char(digit as nat)],
{
    proof {
        reveal_strlit("0");
        reveal_strlit("1");
        reveal_strlit("2");
        reveal_strlit("3");
        reveal_strlit("4");
        reveal_strlit("5");
        reveal_strlit("6");
        reveal_strlit("7");
        reveal_strlit("8");
        reveal_strlit("9");
    }
    let text: &'static str = match digit {
        0 => "0",
        1 => "1",
        2 => "2",
        3 => "3",
        4 => "4",
        5 => "5",
        6 => "6",
        7 => "7",
        8 => "8",
        _ => "9",
    };
    assert(text@ =~= seq![digit_char(digit as nat)]);
    text
}

/// Appends the two digits of a field to `line`.
fn push_field(line: &mut String, field: &TimeField)
    requires
        field.wf(),
    ensures
        final(line)@ == old(line)@ + seq![
            digit_char(field@.tens),
            digit_char(field@.units),
        ],
{
    line.append(digit_text(field.tens()));
    line.append(digit_text(field.units()));
    assert(line@ =~= old(line)@ + seq![digit_char(field@.tens), digit_char(field@.units)]);
}

/// The line for a reading: `HH:MM:SS YY-MM-DD`, without a line end.
pub fn format_reading(reading: &ClockReading) -> (r: String)
    requires
        reading.wf(),
    ensures
        r@ == reading_line(reading@),
{
    proof {
        reveal_strlit(":");
        reveal_strlit(" ");
        reveal_strlit("-");
    }
    let mut line: String = String::new();
    push_field(&mut line, &reading.field(FieldKind::Hour));
    line.append(":");
    push_field(&mut line, &reading.field(FieldKind::Minute));
    line.append(":");
    push_field(&mut line, &reading.field(FieldKind::Second));
    line.append(" ");
    push_field(&mut line, &reading.field(FieldKind::Year));
    line.append("-");
    push_field(&mut line, &reading.field(FieldKind::Month));
    line.append("-");
    push_field(&mut line, &reading.field(FieldKind::Day));
    assert(line@ =~= reading_line(reading@));
    line
}

impl Message {
    /// A reading to report is a well-formed one.
    pub open spec fn wf(self) -> bool {
        self matches Message::Reading(reading) ==> reading.wf()
    }

    /// The line that reports the message.
    pub open spec fn line(self) -> Seq<char> {
        match self {
            Message::ConfigFailed => "ERROR configuring RTC!"@,
            Message::DateTimeSet => "RTC datetime successfully set."@,
            Message::DateTimeSetFailed => "ERROR setting datetime for RTC!"@,
            Message::Reading(reading) => reading_line(reading@),
        }
    }

    /// Whether the message reports a failure.
    pub open spec fn is_error(self) -> bool {
        self is ConfigFailed || self is DateTimeSetFailed
    }

    /// The line that reports the message, without a line end.
    pub fn text(&self) -> (r: String)
        requires
            self.wf(),
        ensures
            r@ == self.line(),
    {
        match self {
            Message::ConfigFailed => String::from_str("ERROR configuring RTC!"),
            Message::DateTimeSet => String::from_str("RTC datetime successfully set."),
            Message::DateTimeSetFailed => String::from_str("ERROR setting datetime for RTC!"),
            Message::Reading(reading) => format_reading(reading),
        }
    }
}

} // verus!
