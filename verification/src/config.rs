//! The settings that are written to the clock once, at boot.

use vstd::prelude::*;

verus! {

/// How the clock counts the hours of a day.
#[derive(Clone, Copy, Debug, PartialEq, Eq, Structural)]
pub enum TimeRepresentation {
    /// 0 to 23.
    TwentyFourHour,
    /// 1 to 12, with a flag for the afternoon.
    TwelveHour,
}

/// The rate of the square wave on the clock's signal pin.
#[derive(Clone, Copy, Debug, PartialEq, Eq, Structural)]
pub enum SquareWaveFrequency {
    Hz1,
    Hz1024,
    Hz4096,
    Hz8192,
}

/// What the clock's signal pin carries.
#[derive(Clone, Copy, Debug, PartialEq, Eq, Structural)]
pub enum InterruptControl {
    /// The square wave.
    SquareWave,
    /// A level that the alarms drive.
    Interrupt,
}

/// Whether the clock's oscillator runs.
#[derive(Clone, Copy, Debug, PartialEq, Eq, Structural)]
pub enum Oscillator {
    Enabled,
    Disabled,
}

/// The configuration of the clock. It is applied once, before the clock is
/// set or read; the state machine in [`crate::readout`] keeps that order.
#[derive(Clone, Copy, Debug, PartialEq, Eq, Structural)]
pub struct ClockConfig {
    pub time_representation: TimeRepresentation,
    pub square_wave_frequency: SquareWaveFrequency,
    pub interrupt_control: InterruptControl,
    pub battery_backed_square_wave: bool,
    pub oscillator_enable: Oscillator,
}

impl ClockConfig {
    /// Whether a clock so configured raises its signal pin once per second:
    /// the oscillator runs and the pin carries the 1 Hz square wave.
    pub open spec fn ticks_every_second(self) -> bool {
        &&& self.oscillator_enable == Oscillator::Enabled
        &&& self.interrupt_control == InterruptControl::SquareWave
        &&& self.square_wave_frequency == SquareWaveFrequency::Hz1
    }

    /// The configuration of the readout: hours from 0 to 23, a 1 Hz square
    /// wave on the signal pin while on mains power, oscillator running.
    pub fn every_second() -> (r: ClockConfig)
        ensures
            r.ticks_every_second(),
            r.time_representation == TimeRepresentation::TwentyFourHour,
            !r.battery_backed_square_wave,
    {
        ClockConfig {
            time_representation: TimeRepresentation::TwentyFourHour,
            square_wave_frequency: SquareWaveFrequency::Hz1,
            interrupt_control: InterruptControl::SquareWave,
            battery_backed_square_wave: false,
            oscillator_enable: Oscillator::Enabled,
        }
    }

    /// Whether a clock so configured raises its signal pin once per second.
    pub fn is_every_second(&self) -> (r: bool)
        ensures
            r == self.ticks_every_second(),
    {
        self.oscillator_enable == Oscillator::Enabled && self.interrupt_control
            == InterruptControl::SquareWave && self.square_wave_frequency
            == SquareWaveFrequency::Hz1
    }
}

} // verus!
