//! Control logic for a wall-clock readout that follows a battery-backed
//! real-time clock.
//!
//! The clock raises a signal once per second; an interrupt handler records it
//! in an [`EventFlag`], and a single main loop drains the flag, reads six
//! fields from the clock and reports them as one line of text. The decisions
//! of that loop are the [`Firmware`] state machine: it is told what
//! happened and answers with the next thing to do. Talking to the bus, to the
//! serial line and to the interrupt controller is the caller's part.

pub mod config;
pub mod datetime;
pub mod field;
pub mod readout;
pub mod registers;
pub mod report;
pub mod signal;
pub mod system;

pub use config::{
    ClockConfig, InterruptControl, Oscillator, SquareWaveFrequency, TimeRepresentation,
};
pub use datetime::{DateTimeModel, DateTimeValue};
pub use field::{ClockReading, FieldKind, FieldModel, ReadingModel, TimeField};
pub use readout::{
    BootError, ConfigError, Event, Firmware, FirmwareModel, Partial, Phase, ReadError, Request,
    WriteError, IDLE_MICROSECONDS,
};
pub use registers::{decode, time_registers, TimeRegisters};
pub use report::{format_reading, Message};
pub use signal::EventFlag;
