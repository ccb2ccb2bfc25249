use chrono::{Datelike, NaiveDate, NaiveDateTime, Timelike};
use ds3231::{Config, DS3231Error, DS3231};
use embedded_hal::i2c::{ErrorKind, ErrorType, I2c, NoAcknowledgeSource, Operation};
use rtc_readout::{
    decode, time_registers, ClockConfig, ConfigError, DateTimeValue, Event, EventFlag, FieldKind,
    Firmware, Phase, ReadError, Request, TimeRepresentation, WriteError,
};

/// A clock on the bench: nineteen registers behind a register pointer, as the
/// device has them. It can be unplugged.
struct BenchClock {
    registers: [u8; 19],
    pointer: usize,
    plugged: bool,
    transactions: usize,
}

impl BenchClock {
    fn new() -> BenchClock {
        BenchClock { registers: [0; 19], pointer: 0, plugged: true, transactions: 0 }
    }
}

impl ErrorType for BenchClock {
    type Error = ErrorKind;
}

impl I2c for BenchClock {
    fn transaction(
        &mut self,
        _address: u8,
        operations: &mut [Operation<'_>],
    ) -> Result<(), ErrorKind> {
        self.transactions += 1;
        if !self.plugged {
            return Err(ErrorKind::NoAcknowledge(NoAcknowledgeSource::Address));
        }
        for operation in operations.iter_mut() {
            match operation {
                Operation::Write(bytes) => {
                    if let Some((first, rest)) = bytes.split_first() {
                        self.pointer = usize::from(*first);
                        for byte in rest {
                            self.registers[self.pointer % 19] = *byte;
                            self.pointer += 1;
                        }
                    }
                }
                Operation::Read(buffer) => {
                    for slot in buffer.iter_mut() {
                        *slot = self.registers[self.pointer % 19];
                        self.pointer += 1;
                    }
                }
            }
        }
        Ok(())
    }
}

fn driver_config(config: ClockConfig) -> Config {
    Config {
        time_representation: match config.time_representation {
            TimeRepresentation::TwentyFourHour => ds3231::TimeRepresentation::TwentyFourHour,
            TimeRepresentation::TwelveHour => ds3231::TimeRepresentation::TwelveHour,
        },
        square_wave_frequency: match config.square_wave_frequency {
            rtc_readout::SquareWaveFrequency::Hz1 => ds3231::SquareWaveFrequency::Hz1,
            rtc_readout::SquareWaveFrequency::Hz1024 => ds3231::SquareWaveFrequency::Hz1024,
            rtc_readout::SquareWaveFrequency::Hz4096 => ds3231::SquareWaveFrequency::Hz4096,
            rtc_readout::SquareWaveFrequency::Hz8192 => ds3231::SquareWaveFrequency::Hz8192,
        },
        interrupt_control: match config.interrupt_control {
            rtc_readout::InterruptControl::SquareWave => ds3231::InterruptControl::SquareWave,
            rtc_readout::InterruptControl::Interrupt => ds3231::InterruptControl::Interrupt,
        },
        battery_backed_square_wave: config.battery_backed_square_wave,
        oscillator_enable: match config.oscillator_enable {
            rtc_readout::Oscillator::Enabled => ds3231::Oscillator::Enabled,
            rtc_readout::Oscillator::Disabled => ds3231::Oscillator::Disabled,
        },
    }
}

fn naive(value: &DateTimeValue) -> NaiveDateTime {
    NaiveDate::from_ymd_opt(
        i32::from(value.year()),
        u32::from(value.month()),
        u32::from(value.day()),
    )
    .and_then(|date| {
        date.and_hms_opt(
            u32::from(value.hour()),
            u32::from(value.minute()),
            u32::from(value.second()),
        )
    })
    .expect("a date and time that the library accepted")
}

fn read_register<B: I2c>(rtc: &mut DS3231<B>, kind: FieldKind) -> Result<u8, ReadError> {
    let raw = match kind {
        FieldKind::Hour => rtc.hour().map(u8::from),
        FieldKind::Minute => rtc.minute().map(u8::from),
        FieldKind::Second => rtc.second().map(u8::from),
        FieldKind::Year => rtc.year().map(u8::from),
        FieldKind::Month => rtc.month().map(u8::from),
        FieldKind::Day => rtc.date().map(u8::from),
    };
    raw.map_err(|_| ReadError::Unreachable)
}

fn config_of(representation: TimeRepresentation) -> ClockConfig {
    let mut config = ClockConfig::every_second();
    config.time_representation = representation;
    config
}

/// Sets the clock through the driver and hands back what its registers hold.
fn set_through_driver(value: &DateTimeValue, representation: TimeRepresentation) -> [u8; 19] {
    let mut clock = BenchClock::new();
    let mut rtc = DS3231::new(&mut clock, 0x68);
    rtc.configure(&driver_config(config_of(representation))).expect("a clock that answers");
    rtc.set_datetime(&naive(value)).expect("a clock that takes the time");
    clock.registers
}

const KINDS: [FieldKind; 6] = [
    FieldKind::Hour,
    FieldKind::Minute,
    FieldKind::Second,
    FieldKind::Year,
    FieldKind::Month,
    FieldKind::Day,
];

const COUNTS: [TimeRepresentation; 2] =
    [TimeRepresentation::TwentyFourHour, TimeRepresentation::TwelveHour];

#[test]
fn driver_writes_the_registers_that_the_library_expects() {
    let value = DateTimeValue::new(2025, 7, 31, 19, 30, 0).expect("a summer evening");
    let registers = set_through_driver(&value, TimeRepresentation::TwentyFourHour);
    assert_eq!(&registers[0..3], &[0x00, 0x30, 0x19]);
    assert_eq!(&registers[4..7], &[0x31, 0x07, 0x25]);
    let image = time_registers(&value, TimeRepresentation::TwentyFourHour);
    assert_eq!(image.seconds, registers[0]);
    assert_eq!(image.minutes, registers[1]);
    assert_eq!(image.hours, registers[2]);
    assert_eq!(image.date, registers[4]);
    assert_eq!(image.month, registers[5]);
    assert_eq!(image.year, registers[6]);
}

#[test]
fn driver_and_library_agree_on_every_hour_in_both_counts() {
    for representation in COUNTS {
        for hour in 0..24u8 {
            for minute in [0u8, 9, 10, 59] {
                let value = DateTimeValue::new(2024, 2, 29, hour, minute, 58).expect("a time");
                let registers = set_through_driver(&value, representation);
                let image = time_registers(&value, representation);
                assert_eq!(image.seconds, registers[0]);
                assert_eq!(image.minutes, registers[1]);
                assert_eq!(image.hours, registers[2], "{:?} {}", representation, hour);
                assert_eq!(image.date, registers[4]);
                assert_eq!(image.month, registers[5]);
                assert_eq!(image.year, registers[6]);
            }
        }
    }
}

#[test]
fn driver_and_library_agree_on_every_day_of_the_century() {
    for year in 2000..=2099u16 {
        for month in 1..=12u8 {
            for day in 1..=31u8 {
                if let Some(value) = DateTimeValue::new(year, month, day, 0, 0, 0) {
                    let registers = set_through_driver(&value, TimeRepresentation::TwentyFourHour);
                    let image = time_registers(&value, TimeRepresentation::TwentyFourHour);
                    assert_eq!(image.date, registers[4]);
                    assert_eq!(image.month, registers[5]);
                    assert_eq!(image.year, registers[6]);
                }
            }
        }
    }
}

#[test]
fn round_trip_through_the_driver() {
    let value = DateTimeValue::new(2025, 7, 31, 19, 30, 0).expect("a summer evening");
    let mut clock = BenchClock::new();
    let mut rtc = DS3231::new(&mut clock, 0x68);
    rtc.configure(&driver_config(ClockConfig::every_second())).expect("a clock that answers");
    rtc.set_datetime(&naive(&value)).expect("a clock that takes the time");
    let expected: [(u8, u8); 6] = [(1, 9), (3, 0), (0, 0), (2, 5), (0, 7), (3, 1)];
    for (kind, pair) in KINDS.iter().zip(expected.iter()) {
        let raw = read_register(&mut rtc, *kind).expect("a clock that answers");
        let field = decode(*kind, raw).expect("a field");
        assert_eq!(field.kind(), *kind);
        assert_eq!((field.tens(), field.units()), *pair);
    }
}

#[test]
fn round_trip_through_the_driver_for_every_hour_in_both_counts() {
    for representation in COUNTS {
        for hour in 0..24u8 {
            let value = DateTimeValue::new(2099, 12, 31, hour, 59, 59).expect("a time");
            let mut clock = BenchClock::new();
            let mut rtc = DS3231::new(&mut clock, 0x68);
            rtc.configure(&driver_config(config_of(representation))).expect("configured");
            rtc.set_datetime(&naive(&value)).expect("set");
            let raw = read_register(&mut rtc, FieldKind::Hour).expect("read");
            let field = decode(FieldKind::Hour, raw).expect("an hour");
            assert_eq!(field.value(), hour, "{:?}", representation);
            assert_eq!((field.tens(), field.units()), (hour / 10, hour % 10));
            let back = rtc.datetime().expect("the driver reads its own registers");
            assert_eq!(back.hour(), u32::from(field.value()));
            assert_eq!(back.year(), 2099);
        }
    }
}

#[test]
fn library_accepts_what_chrono_and_the_driver_accept() {
    // Every date and time that the library lets through is one that chrono
    // can build and the driver can write.
    for year in [2000u16, 2024, 2025, 2099] {
        for month in 1..=12u8 {
            for day in 28..=31u8 {
                let made = DateTimeValue::new(year, month, day, 23, 59, 59);
                let known = NaiveDate::from_ymd_opt(i32::from(year), u32::from(month), u32::from(day));
                assert_eq!(made.is_some(), known.is_some());
                if let Some(value) = made {
                    let date = known.expect("the same day");
                    assert_eq!(date.year(), i32::from(value.year()));
                    assert_eq!(date.month(), u32::from(value.month()));
                    assert_eq!(date.day(), u32::from(value.day()));
                    set_through_driver(&value, TimeRepresentation::TwentyFourHour);
                }
            }
        }
    }
}

/// What a run of the firmware on the bench left behind.
struct Run {
    lines: Vec<String>,
    last: Request,
    phase: Phase,
    transactions: usize,
}

/// Runs the firmware against a clock on the bench for a number of steps. The
/// interrupt handler is called before the steps whose numbers are given; the
/// clock is unplugged before the step `unplug_at`.
fn run(clock: &mut BenchClock, interrupts: &[usize], unplug_at: Option<usize>, steps: usize) -> Run {
    let seed = DateTimeValue::new(2025, 7, 31, 19, 30, 0).expect("a summer evening");
    let mut firmware = Firmware::new(ClockConfig::every_second(), seed);
    let mut flag = EventFlag::new();
    let mut lines = Vec::new();
    let mut request = firmware.step(Event::PowerOn);
    for step in 0..steps {
        if interrupts.contains(&step) {
            flag.set();
        }
        if unplug_at == Some(step) {
            clock.plugged = false;
        }
        let mut rtc = DS3231::new(&mut *clock, 0x68);
        let event = match request {
            Request::Configure(config) => {
                Event::Configured(rtc.configure(&driver_config(config)).map_err(|error| {
                    match error {
                        DS3231Error::I2c(_) => ConfigError::Unreachable,
                        _ => ConfigError::Rejected,
                    }
                }))
            }
            Request::SetDateTime(value) => {
                Event::DateTimeSet(rtc.set_datetime(&naive(&value)).map_err(|error| match error {
                    DS3231Error::I2c(_) => WriteError::Unreachable,
                    _ => WriteError::OutOfRange,
                }))
            }
            Request::Emit(message) => {
                lines.push(message.text());
                Event::Emitted
            }
            Request::ArmInterrupt => Event::Armed,
            Request::TakeSignal => Event::Signal(flag.test_and_clear()),
            Request::Idle => Event::Idled,
            Request::ReadField(kind) => Event::FieldRead(read_register(&mut rtc, kind)),
            Request::Halt | Request::Abort => break,
        };
        request = firmware.step(event);
    }
    Run { lines, last: request, phase: firmware.phase(), transactions: clock.transactions }
}

#[test]
fn bench_run_boots_and_reports_each_event_once() {
    // Boot takes steps 0 to 3; from step 4 on the loop polls on even steps
    // and idles on odd ones. Two interrupts arrive before the poll of step
    // 10, a third one long after the cycle that they begin.
    let mut clock = BenchClock::new();
    let outcome = run(&mut clock, &[9, 10, 40], None, 100);
    assert_eq!(
        outcome.lines,
        vec![
            "RTC datetime successfully set.".to_string(),
            "19:30:00 25-07-31".to_string(),
            "19:30:00 25-07-31".to_string(),
        ]
    );
    assert_eq!(outcome.phase, Phase::Running);
}

#[test]
fn bench_run_without_events_reads_nothing() {
    let mut clock = BenchClock::new();
    let booted = run(&mut clock, &[], None, 5).transactions;
    let mut clock = BenchClock::new();
    let outcome = run(&mut clock, &[], None, 500);
    assert_eq!(outcome.lines, vec!["RTC datetime successfully set.".to_string()]);
    assert_eq!(outcome.transactions, booted);
    assert!(matches!(outcome.last, Request::TakeSignal | Request::Idle));
}

#[test]
fn bench_run_with_no_clock_reports_once_and_halts() {
    let mut clock = BenchClock::new();
    let outcome = run(&mut clock, &[3, 4, 5], Some(0), 100);
    assert_eq!(outcome.lines, vec!["ERROR configuring RTC!".to_string()]);
    assert_eq!(outcome.last, Request::Halt);
    assert!(matches!(outcome.phase, Phase::Halted(_)));
    assert_eq!(outcome.transactions, 1);
}

#[test]
fn bench_run_with_a_clock_lost_before_it_is_set_reports_once_and_halts() {
    let mut clock = BenchClock::new();
    let outcome = run(&mut clock, &[3, 4, 5], Some(1), 100);
    assert_eq!(outcome.lines, vec!["ERROR setting datetime for RTC!".to_string()]);
    assert_eq!(outcome.last, Request::Halt);
    assert!(matches!(outcome.phase, Phase::Halted(_)));
}

#[test]
fn bench_run_with_a_clock_lost_in_a_cycle_aborts() {
    let mut clock = BenchClock::new();
    let outcome = run(&mut clock, &[6], Some(9), 100);
    assert_eq!(outcome.lines, vec!["RTC datetime successfully set.".to_string()]);
    assert_eq!(outcome.last, Request::Abort);
    assert_eq!(outcome.phase, Phase::Aborted(ReadError::Unreachable));
}
