//! The interrupt handler and the main loop together.
//!
//! Two contexts share the signal. The interrupt handler preempts the main
//! loop between any two of its steps and does one thing: it sets the signal.
//! The main loop does what the firmware last asked for, and only a poll
//! touches the signal. This module states that as a model and proves what
//! the hand-off guarantees: events merge while one is pending, none is lost,
//! and an idle or halted firmware stays quiet.
//!
//! Nothing here is executable. The model is built from the views of
//! [`crate::signal::EventFlag`] and [`crate::readout::Firmware`], and its
//! steps are the contracts of their operations.

use crate::config::ClockConfig;
use crate::datetime::DateTimeValue;
use crate::readout::{
    transition, BootError, ConfigError, Event, FirmwareModel, Phase, ReadError, Request, WriteError,
};
use crate::report::Message;
use vstd::prelude::*;

verus! {

/// What the clock's bus would answer to each kind of transaction, were it
/// asked now.
pub struct BusAnswers {
    pub configured: Result<(), ConfigError>,
    pub set: Result<(), WriteError>,
    pub read: Result<u8, ReadError>,
}

/// One thing that happens: the clock's signal interrupts, or the main loop
/// gets the pending request done.
pub enum Step {
    Interrupt,
    Main(BusAnswers),
}

/// The signal, the firmware, and the request that the main loop is working
/// on.
pub struct System {
    /// The view of the event flag: whether an event is pending.
    pub signal: bool,
    pub firmware: FirmwareModel,
    pub pending: Request,
}

/// The event that the main loop brings back from a request: the request's own
/// kind of result. A poll brings what the signal held.
pub open spec fn answer(pending: Request, signal: bool, bus: BusAnswers) -> Event {
    match pending {
        Request::Configure(_) => Event::Configured(bus.configured),
        Request::SetDateTime(_) => Event::DateTimeSet(bus.set),
        Request::Emit(_) => Event::Emitted,
        Request::ArmInterrupt => Event::Armed,
        Request::TakeSignal => Event::Signal(signal),
        Request::Idle => Event::Idled,
        Request::ReadField(_) => Event::FieldRead(bus.read),
        // Never brought back: a halted or aborted main loop takes no step.
        Request::Halt | Request::Abort => Event::PowerOn,
    }
}

impl System {
    /// The system right after power on: no event pending, and the firmware's
    /// first request in hand.
    pub open spec fn booted(config: ClockConfig, seed: DateTimeValue) -> System {
        let start = FirmwareModel { config, seed, phase: Phase::Uninitialized };
        System {
            signal: false,
            firmware: transition(start, Event::PowerOn).0,
            pending: transition(start, Event::PowerOn).1,
        }
    }

    /// The pending request is one that the firmware's phase waits for.
    pub open spec fn consistent(self) -> bool {
        match self.firmware.phase {
            Phase::Uninitialized => false,
            Phase::Configuring => self.pending == Request::Configure(self.firmware.config),
            Phase::SettingInitialTime => self.pending == Request::SetDateTime(self.firmware.seed),
            Phase::Announcing => self.pending == Request::Emit(Message::DateTimeSet),
            Phase::Arming => self.pending == Request::ArmInterrupt,
            Phase::Running => self.pending == Request::TakeSignal || self.pending == Request::Idle,
            Phase::Reading(partial) => self.pending == Request::ReadField(partial.wanted()),
            Phase::Reporting(reading) => self.pending == Request::Emit(Message::Reading(reading)),
            Phase::Halted(BootError::Config(_)) => self.pending == Request::Emit(
                Message::ConfigFailed,
            ) || self.pending == Request::Halt,
            Phase::Halted(BootError::Write(_)) => self.pending == Request::Emit(
                Message::DateTimeSetFailed,
            ) || self.pending == Request::Halt,
            Phase::Aborted(_) => self.pending == Request::Abort,
        }
    }

    /// The firmware is valid and the pending request fits its phase.
    pub open spec fn valid(self) -> bool {
        self.firmware.valid() && self.consistent()
    }

    /// The interrupt handler runs: the signal is set, and nothing else
    /// changes.
    pub open spec fn interrupt(self) -> System {
        System { signal: true, firmware: self.firmware, pending: self.pending }
    }

    /// The main loop gets the pending request done and takes the next one
    /// from the firmware. A poll leaves the signal clear; no other request
    /// touches it. A halted or aborted main loop does nothing.
    pub open spec fn main_step(self, bus: BusAnswers) -> System {
        if self.pending is Halt || self.pending is Abort {
            self
        } else {
            let event = answer(self.pending, self.signal, bus);
            System {
                signal: if self.pending is TakeSignal {
                    false
                } else {
                    self.signal
                },
                firmware: transition(self.firmware, event).0,
                pending: transition(self.firmware, event).1,
            }
        }
    }

    /// One step of either context.
    pub open spec fn step(self, step: Step) -> System {
        match step {
            Step::Interrupt => self.interrupt(),
            Step::Main(bus) => self.main_step(bus),
        }
    }

    /// The system after a run of steps.
    pub open spec fn run(self, steps: Seq<Step>) -> System
        decreases steps.len(),
    {
        if steps.len() == 0 {
            self
        } else {
            self.run(steps.drop_last()).step(steps.last())
        }
    }

    /// Whether the step begins a readout cycle.
    pub open spec fn starts_cycle(self, step: Step) -> bool {
        !self.firmware.phase.in_cycle() && self.step(step).firmware.phase.in_cycle()
    }

    /// The number of readout cycles that begin during a run of steps.
    pub open spec fn cycles(self, steps: Seq<Step>) -> nat
        decreases steps.len(),
    {
        if steps.len() == 0 {
            0
        } else {
            self.cycles(steps.drop_last()) + (if self.run(steps.drop_last()).starts_cycle(
                steps.last(),
            ) {
                1nat
            } else {
                0nat
            })
        }
    }

    /// Whether the system has written the last thing it will ever write and
    /// will never use the bus again: the firmware is halted and the main loop
    /// has nothing left to do.
    pub open spec fn silent(self) -> bool {
        self.firmware.phase is Halted && self.pending is Halt
    }
}

/// The number of interrupts in a run of steps.
pub open spec fn interrupts(steps: Seq<Step>) -> nat
    decreases steps.len(),
{
    if steps.len() == 0 {
        0
    } else {
        interrupts(steps.drop_last()) + (if steps.last() is Interrupt {
            1nat
        } else {
            0nat
        })
    }
}

/// Whether the run has no interrupt in it.
pub open spec fn undisturbed(steps: Seq<Step>) -> bool {
    forall|i: int| 0 <= i < steps.len() ==> #[trigger] steps[i] is Main
}

/// A run without interrupts begins with a run without interrupts and ends
/// with a step of the main loop.
proof fn lemma_undisturbed_prefix(steps: Seq<Step>)
    requires
        undisturbed(steps),
        steps.len() >= 1,
    ensures
        undisturbed(steps.drop_last()),
        steps.last() is Main,
{
    let earlier = steps.drop_last();
    assert forall|i: int| 0 <= i < earlier.len() implies #[trigger] earlier[i] is Main by {
        assert(earlier[i] == steps[i]);
    }
    assert(steps[steps.len() - 1] is Main);
}

/// 1 for an event that is pending, 0 for none.
pub open spec fn count(signal: bool) -> nat {
    if signal {
        1
    } else {
        0
    }
}

/// A system is valid when it boots and stays valid whatever happens.
pub proof fn law_system_stays_valid(system: System, steps: Seq<Step>)
    requires
        system.valid(),
    ensures
        system.run(steps).valid(),
        system.run(steps).firmware.config == system.firmware.config,
        system.run(steps).firmware.seed == system.firmware.seed,
    decreases steps.len(),
{
    if steps.len() > 0 {
        law_system_stays_valid(system, steps.drop_last());
        let before = system.run(steps.drop_last());
        if let Step::Main(bus) = steps.last() {
            lemma_main_step_valid(before, bus);
        }
    }
}

/// The system right after power on is valid.
pub proof fn law_booted_valid(config: ClockConfig, seed: DateTimeValue)
    requires
        seed.wf(),
    ensures
        System::booted(config, seed).valid(),
        System::booted(config, seed).firmware.phase is Configuring,
        !System::booted(config, seed).signal,
{
}

/// One step of the main loop keeps the system valid.
pub proof fn lemma_main_step_valid(system: System, bus: BusAnswers)
    requires
        system.valid(),
    ensures
        system.main_step(bus).valid(),
        system.main_step(bus).firmware.config == system.firmware.config,
        system.main_step(bus).firmware.seed == system.firmware.seed,
{
    let event = answer(system.pending, system.signal, bus);
    crate::readout::law_step_keeps_valid(system.firmware, event);
    if let Phase::Reading(partial) = system.firmware.phase {
        if let Event::FieldRead(Ok(raw)) = event {
            if let Some(field) = crate::registers::decoded(partial.wanted(), raw) {
                crate::registers::lemma_decoded(partial.wanted(), raw);
                crate::readout::lemma_taken_wf(partial, field);
                crate::readout::lemma_taken_consistent(partial, field);
            }
        }
    }
}

/// A cycle begins with a poll that finds the signal set, and with nothing
/// else.
pub proof fn lemma_cycle_start(system: System, step: Step)
    requires
        system.valid(),
    ensures
        system.starts_cycle(step) <==> step is Main && system.pending is TakeSignal
            && system.signal,
        system.starts_cycle(step) ==> system.step(step).firmware.phase == Phase::Reading(
            crate::readout::Partial::Nothing,
        ) && !system.step(step).signal,
{
}

/// Every pending event begins one cycle, at the poll that drains it, and no
/// cycle begins without one. Over a run without interrupts, the cycles begun
/// and the event still pending at the end add up to the event that was
/// pending at the start.
pub proof fn law_one_cycle_per_event(system: System, steps: Seq<Step>)
    requires
        system.valid(),
        undisturbed(steps),
    ensures
        system.cycles(steps) + count(system.run(steps).signal) == count(system.signal),
    decreases steps.len(),
{
    if steps.len() > 0 {
        let earlier = steps.drop_last();
        lemma_undisturbed_prefix(steps);
        law_one_cycle_per_event(system, earlier);
        law_system_stays_valid(system, earlier);
        lemma_cycle_start(system.run(earlier), steps.last());
    }
}

/// There are never more cycles than events. Over any run of steps, the
/// cycles begun and the event still pending at the end are at most the event
/// that was pending at the start and the interrupts of the run; they are
/// fewer where an interrupt found the signal already set.
pub proof fn law_cycles_bounded_by_events(system: System, steps: Seq<Step>)
    requires
        system.valid(),
    ensures
        system.cycles(steps) + count(system.run(steps).signal) <= count(system.signal)
            + interrupts(steps),
    decreases steps.len(),
{
    if steps.len() > 0 {
        let earlier = steps.drop_last();
        law_cycles_bounded_by_events(system, earlier);
        law_system_stays_valid(system, earlier);
        lemma_cycle_start(system.run(earlier), steps.last());
    }
}

/// Events merge while one is pending. Setting the signal twice is the same
/// as setting it once; and when the handler has run twice before the loop
/// polls, then however long the loop goes on undisturbed, exactly one cycle
/// begins: not two, not none.
pub proof fn law_coalescing(system: System, steps: Seq<Step>)
    requires
        system.valid(),
        system.pending is TakeSignal,
        undisturbed(steps),
        steps.len() >= 1,
    ensures
        system.interrupt().interrupt() == system.interrupt(),
        system.interrupt().interrupt().cycles(steps) == 1,
        !system.interrupt().interrupt().run(steps).signal,
{
    let twice = system.interrupt().interrupt();
    law_one_cycle_per_event(twice, steps);
    lemma_drained_stays_clear(twice, steps);
}

/// After the first step of an undisturbed run that begins with a poll, the
/// signal is clear.
proof fn lemma_drained_stays_clear(system: System, steps: Seq<Step>)
    requires
        system.valid(),
        system.pending is TakeSignal,
        undisturbed(steps),
        steps.len() >= 1,
    ensures
        !system.run(steps).signal,
    decreases steps.len(),
{
    let earlier = steps.drop_last();
    lemma_undisturbed_prefix(steps);
    if earlier.len() > 0 {
        lemma_drained_stays_clear(system, earlier);
    }
}

/// No event is lost. The signal is cleared before the cycle it begins, so an
/// interrupt at any moment, also in the middle of a cycle, leaves the signal
/// set; the steps of a cycle do not touch it; and the next poll finds it and
/// begins another cycle. Whatever follows the interrupt, at every later
/// moment the event is either still pending or has begun a cycle.
pub proof fn law_no_event_lost(system: System, steps: Seq<Step>)
    requires
        system.valid(),
    ensures
        system.interrupt().signal,
        system.interrupt().run(steps).signal || system.interrupt().cycles(steps) >= 1,
    decreases steps.len(),
{
    if steps.len() > 0 {
        let earlier = steps.drop_last();
        law_no_event_lost(system, earlier);
        law_system_stays_valid(system.interrupt(), earlier);
        lemma_cycle_start(system.interrupt().run(earlier), steps.last());
    }
}

/// During a cycle the signal is out of the main loop's hands: a step of the
/// main loop in the middle of a cycle leaves the signal as it is, so an event
/// that arrived meanwhile is still there when the cycle ends.
pub proof fn law_cycle_keeps_signal(system: System, bus: BusAnswers)
    requires
        system.valid(),
        system.firmware.phase.in_cycle(),
    ensures
        system.main_step(bus).signal == system.signal,
        system.interrupt().main_step(bus).signal,
{
}

/// A poll that finds the signal set begins a cycle and leaves the signal
/// clear.
pub proof fn law_poll_begins_cycle(system: System, bus: BusAnswers)
    requires
        system.valid(),
        system.pending is TakeSignal,
        system.signal,
    ensures
        system.starts_cycle(Step::Main(bus)),
        system.main_step(bus).pending == Request::ReadField(crate::field::FieldKind::Hour),
        !system.main_step(bus).signal,
{
}

/// Idle polling is idempotent. While the loop is running and no event is
/// pending, an undisturbed run of any length leaves the firmware and the
/// signal as they are, and the main loop only ever polls and idles: it writes
/// nothing and leaves the bus alone.
pub proof fn law_idle_polling(system: System, steps: Seq<Step>)
    requires
        system.valid(),
        system.firmware.phase is Running,
        !system.signal,
        undisturbed(steps),
    ensures
        system.run(steps).firmware == system.firmware,
        !system.run(steps).signal,
        system.run(steps).pending is TakeSignal || system.run(steps).pending is Idle,
        !system.run(steps).pending.uses_bus(),
        !system.run(steps).pending.writes_output(),
        system.cycles(steps) == 0,
    decreases steps.len(),
{
    if steps.len() > 0 {
        let earlier = steps.drop_last();
        lemma_undisturbed_prefix(steps);
        law_idle_polling(system, earlier);
    }
}

/// The boot asks for each of its transactions once. After power on the main
/// loop is never again asked to write the configuration, and it is asked to
/// set the clock only by the step that saw the configuration written.
pub proof fn law_boot_asks_once(system: System, bus: BusAnswers)
    requires
        system.valid(),
    ensures
        !(system.main_step(bus).pending is Configure),
        system.main_step(bus).pending is SetDateTime <==> system.firmware.phase is Configuring
            && bus.configured is Ok,
{
    lemma_main_step_valid(system, bus);
}

/// A failure at boot is contained. When the configuration or the setting of
/// the clock fails, the next request is to write one error line, and once
/// that is done the system is silent.
pub proof fn law_boot_failure_contained(system: System, bus: BusAnswers, after: BusAnswers)
    requires
        system.valid(),
        system.firmware.phase is Configuring && bus.configured is Err
            || system.firmware.phase is SettingInitialTime && bus.set is Err,
    ensures
        system.main_step(bus).firmware.phase is Halted,
        system.main_step(bus).pending matches Request::Emit(message) && message.is_error(),
        system.main_step(bus).main_step(after).silent(),
{
}

/// Silence lasts. Whatever happens to a silent system, interrupts included,
/// it stays silent: the firmware stays halted as it is, and the main loop
/// never again writes a line or uses the bus.
pub proof fn law_silence_lasts(system: System, steps: Seq<Step>)
    requires
        system.silent(),
    ensures
        system.run(steps).silent(),
        system.run(steps).firmware == system.firmware,
        !system.run(steps).pending.uses_bus(),
        !system.run(steps).pending.writes_output(),
        system.cycles(steps) == 0,
    decreases steps.len(),
{
    if steps.len() > 0 {
        law_silence_lasts(system, steps.drop_last());
    }
}

} // verus!
