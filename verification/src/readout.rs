//! The firmware as a state machine: boot, then the readout loop.
//!
//! The machine does no work on the outside world. Each step takes what the
//! last piece of outside work brought (an [`Event`]) and answers with the
//! next piece to do (a [`Request`]). The caller does the work and comes back
//! with its result.

use crate::config::ClockConfig;
use crate::datetime::DateTimeValue;
use crate::field::{ClockReading, FieldKind, ReadingModel, TimeField};
use crate::registers::{decode, decoded, lemma_decoded};
use crate::report::Message;
use vstd::prelude::*;

verus! {

/// How long the loop waits after a poll that found no event, in
/// microseconds.
pub const IDLE_MICROSECONDS: u32 = 500;

/// Why the clock did not take its configuration.
#[derive(Clone, Copy, Debug, PartialEq, Eq, Structural)]
pub enum ConfigError {
    /// The bus transaction failed.
    Unreachable,
    /// The clock refused the configuration.
    Rejected,
}

/// Why the clock could not be set.
#[derive(Clone, Copy, Debug, PartialEq, Eq, Structural)]
pub enum WriteError {
    /// The bus transaction failed.
    Unreachable,
    /// The clock cannot keep the date and time.
    OutOfRange,
}

/// Why a field could not be read.
#[derive(Clone, Copy, Debug, PartialEq, Eq, Structural)]
pub enum ReadError {
    /// The bus transaction failed.
    Unreachable,
    /// The register did not hold a field of its kind.
    Malformed,
}

/// The failure at boot that halted the firmware.
#[derive(Clone, Copy, Debug, PartialEq, Eq, Structural)]
pub enum BootError {
    Config(ConfigError),
    Write(WriteError),
}

/// The fields of the cycle that have been read so far. They are read in the
/// order hour, minute, second, year, month, day; a variant is named after the
/// last field it holds.
#[derive(Clone, Copy, Debug, PartialEq, Eq, Structural)]
pub enum Partial {
    Nothing,
    Hour(TimeField),
    Minute(TimeField, TimeField),
    Second(TimeField, TimeField, TimeField),
    Year(TimeField, TimeField, TimeField, TimeField),
    Month(TimeField, TimeField, TimeField, TimeField, TimeField),
}

/// Where the firmware stands.
#[derive(Clone, Copy, Debug, PartialEq, Eq, Structural)]
pub enum Phase {
    /// Nothing has been done yet.
    Uninitialized,
    /// The configuration is being written to the clock.
    Configuring,
    /// The clock is being set.
    SettingInitialTime,
    /// The line that says the clock was set is being written.
    Announcing,
    /// The interrupt of the clock's signal is being armed.
    Arming,
    /// The loop polls the signal, and idles while there is none.
    Running,
    /// A cycle is under way: fields are being read.
    Reading(Partial),
    /// All six fields are in and formatted; their line is being written.
    Reporting(ClockReading),
    /// Boot failed. The failure was reported once; nothing more is done.
    Halted(BootError),
    /// A read failed in the loop. The firmware gives up.
    Aborted(ReadError),
}

/// What the outside world brought.
#[derive(Clone, Copy, Debug, PartialEq, Eq)]
pub enum Event {
    /// Power came on.
    PowerOn,
    /// The configuration was written, or not.
    Configured(Result<(), ConfigError>),
    /// The clock was set, or not.
    DateTimeSet(Result<(), WriteError>),
    /// The line was written.
    Emitted,
    /// The interrupt is armed.
    Armed,
    /// The signal was tested and cleared; `true` if it had been set.
    Signal(bool),
    /// The idle delay is over.
    Idled,
    /// The register of the requested field was read: its byte, or the failure.
    FieldRead(Result<u8, ReadError>),
}

/// What the firmware asks of the outside world.
#[derive(Clone, Copy, Debug, PartialEq, Eq, Structural)]
pub enum Request {
    /// Write the configuration to the clock. Answered by [`Event::Configured`].
    Configure(ClockConfig),
    /// Set the clock. Answered by [`Event::DateTimeSet`].
    SetDateTime(DateTimeValue),
    /// Write the line of the message. Answered by [`Event::Emitted`].
    Emit(Message),
    /// Arm the interrupt of the clock's signal and let interrupts through.
    /// Answered by [`Event::Armed`].
    ArmInterrupt,
    /// Test and clear the signal. Answered by [`Event::Signal`].
    TakeSignal,
    /// Wait [`IDLE_MICROSECONDS`]. Answered by [`Event::Idled`].
    Idle,
    /// Read the register of a field. Answered by [`Event::FieldRead`].
    ReadField(FieldKind),
    /// Do nothing, forever: the soft halt after a failed boot.
    Halt,
    /// Stop abnormally: a read failed.
    Abort,
}

impl Partial {
    /// The fields are well formed and stand in reading order.
    pub open spec fn wf(self) -> bool {
        match self {
            Partial::Nothing => true,
            Partial::Hour(h) => is_kind(h, FieldKind::Hour),
            Partial::Minute(h, m) => {
                &&& is_kind(h, FieldKind::Hour)
                &&& is_kind(m, FieldKind::Minute)
            },
            Partial::Second(h, m, s) => {
                &&& is_kind(h, FieldKind::Hour)
                &&& is_kind(m, FieldKind::Minute)
                &&& is_kind(s, FieldKind::Second)
            },
            Partial::Year(h, m, s, y) => {
                &&& is_kind(h, FieldKind::Hour)
                &&& is_kind(m, FieldKind::Minute)
                &&& is_kind(s, FieldKind::Second)
                &&& is_kind(y, FieldKind::Year)
            },
            Partial::Month(h, m, s, y, mo) => {
                &&& is_kind(h, FieldKind::Hour)
                &&& is_kind(m, FieldKind::Minute)
                &&& is_kind(s, FieldKind::Second)
                &&& is_kind(y, FieldKind::Year)
                &&& is_kind(mo, FieldKind::Month)
            },
        }
    }

    /// The field to read next.
    pub open spec fn wanted(self) -> FieldKind {
        match self {
            Partial::Nothing => FieldKind::Hour,
            Partial::Hour(..) => FieldKind::Minute,
            Partial::Minute(..) => FieldKind::Second,
            Partial::Second(..) => FieldKind::Year,
            Partial::Year(..) => FieldKind::Month,
            Partial::Month(..) => FieldKind::Day,
        }
    }

    /// The field to read next.
    pub fn next_kind(&self) -> (r: FieldKind)
        ensures
            r == self.wanted(),
    {
        match self {
            Partial::Nothing => FieldKind::Hour,
            Partial::Hour(..) => FieldKind::Minute,
            Partial::Minute(..) => FieldKind::Second,
            Partial::Second(..) => FieldKind::Year,
            Partial::Year(..) => FieldKind::Month,
            Partial::Month(..) => FieldKind::Day,
        }
    }
}

/// A well-formed field of the given kind.
pub open spec fn is_kind(field: TimeField, kind: FieldKind) -> bool {
    field.wf() && field@.kind == kind
}

impl Phase {
    /// What the phase holds is well formed.
    pub open spec fn wf(self) -> bool {
        match self {
            Phase::Reading(partial) => partial.wf(),
            Phase::Reporting(reading) => reading.wf(),
            _ => true,
        }
    }

    /// Whether a readout cycle is under way.
    pub open spec fn in_cycle(self) -> bool {
        self is Reading || self is Reporting
    }

    /// Whether the clock has taken its configuration.
    pub open spec fn configured(self) -> bool {
        match self {
            Phase::Uninitialized | Phase::Configuring => false,
            Phase::Halted(BootError::Config(_)) => false,
            _ => true,
        }
    }
}

impl Request {
    /// A reading to report is a well-formed one, and a date and time to set
    /// is one that the clock can keep.
    pub open spec fn wf(self) -> bool {
        match self {
            Request::Emit(message) => message.wf(),
            Request::SetDateTime(value) => value.wf(),
            _ => true,
        }
    }

    /// Whether the request is a transaction on the clock's bus.
    pub open spec fn uses_bus(self) -> bool {
        self is Configure || self is SetDateTime || self is ReadField
    }

    /// Whether the request writes to the output.
    pub open spec fn writes_output(self) -> bool {
        self is Emit
    }
}

/// What a [`Firmware`] stands for.
pub struct FirmwareModel {
    pub config: ClockConfig,
    pub seed: DateTimeValue,
    pub phase: Phase,
}

impl FirmwareModel {
    /// The seed is a date and time that the clock can keep, and the phase is
    /// well formed.
    pub open spec fn valid(self) -> bool {
        self.seed.wf() && self.phase.wf()
    }

    /// The same firmware in another phase.
    pub open spec fn at(self, phase: Phase) -> FirmwareModel {
        FirmwareModel { config: self.config, seed: self.seed, phase }
    }
}

/// A cycle that has `partial` and now reads `field`: the next phase and the
/// request that goes with it. After the day the reading is complete and its
/// line is due; before that, the next field is.
pub open spec fn taken(partial: Partial, field: TimeField) -> (Phase, Request) {
    match partial {
        Partial::Nothing => more(Partial::Hour(field)),
        Partial::Hour(h) => more(Partial::Minute(h, field)),
        Partial::Minute(h, m) => more(Partial::Second(h, m, field)),
        Partial::Second(h, m, s) => more(Partial::Year(h, m, s, field)),
        Partial::Year(h, m, s, y) => more(Partial::Month(h, m, s, y, field)),
        Partial::Month(h, m, s, y, mo) => match ClockReading::checked(
            ReadingModel { hour: h, minute: m, second: s, year: y, month: mo, day: field },
        ) {
            Some(reading) => (Phase::Reporting(reading), Request::Emit(Message::Reading(reading))),
            None => (Phase::Aborted(ReadError::Malformed), Request::Abort),
        },
    }
}

/// The cycle goes on with the next field.
pub open spec fn more(partial: Partial) -> (Phase, Request) {
    (Phase::Reading(partial), Request::ReadField(partial.wanted()))
}

/// The step of the machine: the state after `event`, and the request that
/// answers it.
///
/// Each phase waits for the result of one request. An event that is not that
/// result changes nothing and is answered with the same request again. The
/// first event, whatever it is, starts the boot.
pub open spec fn transition(state: FirmwareModel, event: Event) -> (FirmwareModel, Request) {
    match state.phase {
        Phase::Uninitialized => (state.at(Phase::Configuring), Request::Configure(state.config)),
        Phase::Configuring => match event {
            Event::Configured(Ok(_)) => (
                state.at(Phase::SettingInitialTime),
                Request::SetDateTime(state.seed),
            ),
            Event::Configured(Err(e)) => (
                state.at(Phase::Halted(BootError::Config(e))),
                Request::Emit(Message::ConfigFailed),
            ),
            _ => (state, Request::Configure(state.config)),
        },
        Phase::SettingInitialTime => match event {
            Event::DateTimeSet(Ok(_)) => (
                state.at(Phase::Announcing),
                Request::Emit(Message::DateTimeSet),
            ),
            Event::DateTimeSet(Err(e)) => (
                state.at(Phase::Halted(BootError::Write(e))),
                Request::Emit(Message::DateTimeSetFailed),
            ),
            _ => (state, Request::SetDateTime(state.seed)),
        },
        Phase::Announcing => match event {
            Event::Emitted => (state.at(Phase::Arming), Request::ArmInterrupt),
            _ => (state, Request::Emit(Message::DateTimeSet)),
        },
        Phase::Arming => match event {
            Event::Armed => (state.at(Phase::Running), Request::TakeSignal),
            _ => (state, Request::ArmInterrupt),
        },
        Phase::Running => match event {
            Event::Signal(true) => (
                state.at(Phase::Reading(Partial::Nothing)),
                Request::ReadField(FieldKind::Hour),
            ),
            Event::Signal(false) => (state, Request::Idle),
            _ => (state, Request::TakeSignal),
        },
        Phase::Reading(partial) => match event {
            Event::FieldRead(Ok(raw)) => match decoded(partial.wanted(), raw) {
                Some(field) => (state.at(taken(partial, field).0), taken(partial, field).1),
                None => (state.at(Phase::Aborted(ReadError::Malformed)), Request::Abort),
            },
            Event::FieldRead(Err(e)) => (state.at(Phase::Aborted(e)), Request::Abort),
            _ => (state, Request::ReadField(partial.wanted())),
        },
        Phase::Reporting(reading) => match event {
            Event::Emitted => (state.at(Phase::Running), Request::TakeSignal),
            _ => (state, Request::Emit(Message::Reading(reading))),
        },
        Phase::Halted(_) => (state, Request::Halt),
        Phase::Aborted(_) => (state, Request::Abort),
    }
}

/// Adds a field to the cycle.
fn take(partial: Partial, field: TimeField) -> (r: (Phase, Request))
    requires
        partial.wf(),
        is_kind(field, partial.wanted()),
    ensures
        r == taken(partial, field),
        r.0.wf(),
        r.1.wf(),
{
    let next: Partial = match partial {
        Partial::Nothing => Partial::Hour(field),
        Partial::Hour(h) => Partial::Minute(h, field),
        Partial::Minute(h, m) => Partial::Second(h, m, field),
        Partial::Second(h, m, s) => Partial::Year(h, m, s, field),
        Partial::Year(h, m, s, y) => Partial::Month(h, m, s, y, field),
        Partial::Month(h, m, s, y, mo) => {
            return match ClockReading::new(h, m, s, y, mo, field) {
                Some(reading) => (
                    Phase::Reporting(reading),
                    Request::Emit(Message::Reading(reading)),
                ),
                None => (Phase::Aborted(ReadError::Malformed), Request::Abort),
            };
        },
    };
    (Phase::Reading(next), Request::ReadField(next.next_kind()))
}

/// The firmware: its configuration, the date and time to seed the clock
/// with, and where it stands.
#[derive(Clone, Copy, Debug, PartialEq, Eq, Structural)]
pub struct Firmware {
    config: ClockConfig,
    seed: DateTimeValue,
    phase: Phase,
}

impl View for Firmware {
    type V = FirmwareModel;

    closed spec fn view(&self) -> FirmwareModel {
        FirmwareModel { config: self.config, seed: self.seed, phase: self.phase }
    }
}

impl Firmware {
    /// The invariant of the type: see [`FirmwareModel::valid`].
    pub open spec fn wf(self) -> bool {
        self@.valid()
    }

    /// A firmware that has not started.
    pub fn new(config: ClockConfig, seed: DateTimeValue) -> (r: Firmware)
        requires
            seed.wf(),
        ensures
            r.wf(),
            r@ == (FirmwareModel { config, seed, phase: Phase::Uninitialized }),
    {
        Firmware { config, seed, phase: Phase::Uninitialized }
    }

    /// Takes an event and says what to do next.
    pub fn step(&mut self, event: Event) -> (r: Request)
        requires
            old(self).wf(),
        ensures
            final(self).wf(),
            r.wf(),
            (final(self)@, r) == transition(old(self)@, event),
    {
        match self.phase {
            Phase::Uninitialized => {
                self.phase = Phase::Configuring;
                Request::Configure(self.config)
            },
            Phase::Configuring => match event {
                Event::Configured(Ok(_)) => {
                    self.phase = Phase::SettingInitialTime;
                    Request::SetDateTime(self.seed)
                },
                Event::Configured(Err(e)) => {
                    self.phase = Phase::Halted(BootError::Config(e));
                    Request::Emit(Message::ConfigFailed)
                },
                _ => Request::Configure(self.config),
            },
            Phase::SettingInitialTime => match event {
                Event::DateTimeSet(Ok(_)) => {
                    self.phase = Phase::Announcing;
                    Request::Emit(Message::DateTimeSet)
                },
                Event::DateTimeSet(Err(e)) => {
                    self.phase = Phase::Halted(BootError::Write(e));
                    Request::Emit(Message::DateTimeSetFailed)
                },
                _ => Request::SetDateTime(self.seed),
            },
            Phase::Announcing => match event {
                Event::Emitted => {
                    self.phase = Phase::Arming;
                    Request::ArmInterrupt
                },
                _ => Request::Emit(Message::DateTimeSet),
            },
            Phase::Arming => match event {
                Event::Armed => {
                    self.phase = Phase::Running;
                    Request::TakeSignal
                },
                _ => Request::ArmInterrupt,
            },
            Phase::Running => match event {
                Event::Signal(true) => {
                    self.phase = Phase::Reading(Partial::Nothing);
                    Request::ReadField(FieldKind::Hour)
                },
                Event::Signal(false) => Request::Idle,
                _ => Request::TakeSignal,
            },
            Phase::Reading(partial) => match event {
                Event::FieldRead(Ok(raw)) => match decode(partial.next_kind(), raw) {
                    Some(field) => {
                        let (phase, request) = take(partial, field);
                        self.phase = phase;
                        request
                    },
                    None => {
                        self.phase = Phase::Aborted(ReadError::Malformed);
                        Request::Abort
                    },
                },
                Event::FieldRead(Err(e)) => {
                    self.phase = Phase::Aborted(e);
                    Request::Abort
                },
                _ => Request::ReadField(partial.next_kind()),
            },
            Phase::Reporting(reading) => match event {
                Event::Emitted => {
                    self.phase = Phase::Running;
                    Request::TakeSignal
                },
                _ => Request::Emit(Message::Reading(reading)),
            },
            Phase::Halted(_) => Request::Halt,
            Phase::Aborted(_) => Request::Abort,
        }
    }

    /// Where the firmware stands.
    pub fn phase(&self) -> (r: Phase)
        ensures
            r == self@.phase,
    {
        self.phase
    }

    /// The configuration that the firmware applies at boot.
    pub fn config(&self) -> (r: ClockConfig)
        ensures
            r == self@.config,
    {
        self.config
    }

    /// The date and time with which the firmware seeds the clock.
    pub fn seed(&self) -> (r: DateTimeValue)
        ensures
            r == self@.seed,
    {
        self.seed
    }
}

/// The state after a run of events, one step for each.
pub open spec fn replay(state: FirmwareModel, events: Seq<Event>) -> FirmwareModel
    decreases events.len(),
{
    if events.len() == 0 {
        state
    } else {
        transition(replay(state, events.drop_last()), events.last()).0
    }
}

/// A step keeps a valid state valid, and asks only for what is well formed.
pub proof fn law_step_keeps_valid(state: FirmwareModel, event: Event)
    requires
        state.valid(),
    ensures
        transition(state, event).0.valid(),
        transition(state, event).1.wf(),
        transition(state, event).0.config == state.config,
        transition(state, event).0.seed == state.seed,
{
    if let Phase::Reading(partial) = state.phase {
        if let Event::FieldRead(Ok(raw)) = event {
            if let Some(field) = decoded(partial.wanted(), raw) {
                lemma_decoded(partial.wanted(), raw);
                lemma_taken_wf(partial, field);
            }
        }
    }
}

/// Adding the wanted field to a well-formed cycle gives a well-formed phase
/// and request, and never gives up.
pub proof fn lemma_taken_wf(partial: Partial, field: TimeField)
    requires
        partial.wf(),
        is_kind(field, partial.wanted()),
    ensures
        taken(partial, field).0.wf(),
        taken(partial, field).1.wf(),
        taken(partial, field).0.in_cycle(),
{
    if let Partial::Month(h, m, s, y, mo) = partial {
        let model = ReadingModel { hour: h, minute: m, second: s, year: y, month: mo, day: field };
        ClockReading::lemma_of(model);
    }
}

/// Adding the wanted field to a cycle asks for the field after it, or for the
/// line of the reading when it was the last.
pub proof fn lemma_taken_consistent(partial: Partial, field: TimeField)
    requires
        partial.wf(),
        is_kind(field, partial.wanted()),
    ensures
        match taken(partial, field).0 {
            Phase::Reading(next) => taken(partial, field).1 == Request::ReadField(next.wanted()),
            Phase::Reporting(reading) => taken(partial, field).1 == Request::Emit(
                Message::Reading(reading),
            ),
            _ => false,
        },
{
    lemma_taken_wf(partial, field);
}

/// The clock is configured before it is set or read: a request to set the
/// clock or to read a field leaves the firmware in a phase that is past a
/// successful configuration, and the only way into such a phase is the event
/// that says the configuration was written.
pub proof fn law_configured_first(state: FirmwareModel, event: Event)
    ensures
        ({
            let (next, request) = transition(state, event);
            &&& request is SetDateTime || request is ReadField ==> next.phase.configured()
            &&& !state.phase.configured() && next.phase.configured() ==> state.phase is Configuring
                && event matches Event::Configured(Ok(_))
        }),
{
    if let Phase::Reading(partial) = state.phase {
        if let Event::FieldRead(Ok(raw)) = event {
            if let Some(field) = decoded(partial.wanted(), raw) {
                assert(!(taken(partial, field).0 is Halted));
            }
        }
    }
}

/// A failure at boot is reported once and halts the firmware: the failed
/// configuration or the failed setting of the clock is answered with the
/// request to write the error line, and the firmware is then halted.
pub proof fn law_boot_failure_reported(state: FirmwareModel, event: Event)
    requires
        state.phase is Configuring && event matches Event::Configured(Err(_))
            || state.phase is SettingInitialTime && event matches Event::DateTimeSet(Err(_)),
    ensures
        transition(state, event).0.phase is Halted,
        transition(state, event).1 matches Request::Emit(message) && message.is_error(),
{
}

/// Once halted, always halted: whatever events follow, the state stays as it
/// is and every answer is the request to halt. Nothing is written and the
/// bus is left alone.
pub proof fn law_halt_is_final(state: FirmwareModel, events: Seq<Event>, event: Event)
    requires
        state.phase is Halted,
    ensures
        replay(state, events) == state,
        transition(replay(state, events), event) == (state, Request::Halt),
    decreases events.len(),
{
    if events.len() > 0 {
        law_halt_is_final(state, events.drop_last(), events.last());
    }
}

/// Once aborted, always aborted.
pub proof fn law_abort_is_final(state: FirmwareModel, events: Seq<Event>, event: Event)
    requires
        state.phase is Aborted,
    ensures
        replay(state, events) == state,
        transition(replay(state, events), event) == (state, Request::Abort),
    decreases events.len(),
{
    if events.len() > 0 {
        law_abort_is_final(state, events.drop_last(), events.last());
    }
}

/// Polling an idle signal changes nothing. While the loop is running and
/// every poll finds the signal clear, however many polls and idle delays
/// follow, the state stays as it is and every answer is to idle or to poll
/// again: nothing is written and the bus is left alone.
pub proof fn law_idle_events(state: FirmwareModel, events: Seq<Event>, event: Event)
    requires
        state.phase is Running,
        forall|i: int| 0 <= i < events.len() ==> quiet(#[trigger] events[i]),
        quiet(event),
    ensures
        replay(state, events) == state,
        transition(replay(state, events), event).0 == state,
        transition(replay(state, events), event).1 == (if event is Signal {
            Request::Idle
        } else {
            Request::TakeSignal
        }),
    decreases events.len(),
{
    if events.len() > 0 {
        law_idle_events(state, events.drop_last(), events.last());
    }
}

/// An event of the loop at rest: a poll that found the signal clear, or the
/// end of an idle delay.
pub open spec fn quiet(event: Event) -> bool {
    event == Event::Signal(false) || event == Event::Idled
}

} // verus!
