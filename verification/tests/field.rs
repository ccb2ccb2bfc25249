use rtc_readout::{ClockReading, FieldKind, TimeField};

const KINDS: [FieldKind; 6] = [
    FieldKind::Hour,
    FieldKind::Minute,
    FieldKind::Second,
    FieldKind::Year,
    FieldKind::Month,
    FieldKind::Day,
];

fn field(kind: FieldKind, tens: u8, units: u8) -> TimeField {
    TimeField::new(kind, tens, units).expect("a valid field")
}

#[test]
fn field_keeps_its_digits_apart() {
    let hour = field(FieldKind::Hour, 1, 9);
    assert_eq!(hour.kind(), FieldKind::Hour);
    assert_eq!(hour.tens(), 1);
    assert_eq!(hour.units(), 9);
    assert_eq!(hour.value(), 19);
}

#[test]
fn field_rejects_a_digit_above_nine() {
    assert_eq!(TimeField::new(FieldKind::Year, 10, 0), None);
    assert_eq!(TimeField::new(FieldKind::Year, 0, 10), None);
    assert_eq!(TimeField::new(FieldKind::Minute, 1, 15), None);
    assert_eq!(TimeField::new(FieldKind::Second, 255, 255), None);
}

#[test]
fn field_ranges_are_those_of_the_clock() {
    let expected: [(u8, u8); 6] = [(0, 23), (0, 59), (0, 59), (0, 99), (1, 12), (1, 31)];
    for (kind, (low, high)) in KINDS.iter().zip(expected.iter()) {
        assert_eq!(kind.min_value(), *low);
        assert_eq!(kind.max_value(), *high);
    }
}

#[test]
fn field_new_accepts_exactly_the_range_of_its_kind() {
    for kind in KINDS {
        for tens in 0..=12u8 {
            for units in 0..=12u8 {
                let value = 10 * tens + units;
                let fits = tens <= 9
                    && units <= 9
                    && kind.min_value() <= value
                    && value <= kind.max_value();
                let made = TimeField::new(kind, tens, units);
                assert_eq!(made.is_some(), fits, "{:?} {} {}", kind, tens, units);
                if let Some(made) = made {
                    assert_eq!((made.kind(), made.tens(), made.units()), (kind, tens, units));
                    assert_eq!(made.value(), value);
                }
            }
        }
    }
}

#[test]
fn field_edges_of_each_kind() {
    assert!(TimeField::new(FieldKind::Hour, 2, 3).is_some());
    assert!(TimeField::new(FieldKind::Hour, 2, 4).is_none());
    assert!(TimeField::new(FieldKind::Minute, 5, 9).is_some());
    assert!(TimeField::new(FieldKind::Minute, 6, 0).is_none());
    assert!(TimeField::new(FieldKind::Second, 5, 9).is_some());
    assert!(TimeField::new(FieldKind::Second, 6, 0).is_none());
    assert!(TimeField::new(FieldKind::Year, 9, 9).is_some());
    assert!(TimeField::new(FieldKind::Month, 0, 0).is_none());
    assert!(TimeField::new(FieldKind::Month, 0, 1).is_some());
    assert!(TimeField::new(FieldKind::Month, 1, 2).is_some());
    assert!(TimeField::new(FieldKind::Month, 1, 3).is_none());
    assert!(TimeField::new(FieldKind::Day, 0, 0).is_none());
    assert!(TimeField::new(FieldKind::Day, 3, 1).is_some());
    assert!(TimeField::new(FieldKind::Day, 3, 2).is_none());
}

#[test]
fn field_from_value_splits_into_digits() {
    let day = TimeField::from_value(FieldKind::Day, 31).expect("the 31st");
    assert_eq!((day.tens(), day.units()), (3, 1));
    let month = TimeField::from_value(FieldKind::Month, 7).expect("July");
    assert_eq!((month.tens(), month.units()), (0, 7));
    assert_eq!(TimeField::from_value(FieldKind::Month, 0), None);
    assert_eq!(TimeField::from_value(FieldKind::Hour, 24), None);
    assert_eq!(TimeField::from_value(FieldKind::Year, 100), None);
}

#[test]
fn field_from_value_agrees_with_new() {
    for kind in KINDS {
        for value in 0..=255u8 {
            let split = TimeField::from_value(kind, value);
            if value <= 99 {
                assert_eq!(split, TimeField::new(kind, value / 10, value % 10));
            } else {
                assert_eq!(split, None);
            }
            if let Some(split) = split {
                assert_eq!(split.value(), value);
            }
        }
    }
}

#[test]
fn reading_takes_one_field_of_each_kind() {
    let reading = ClockReading::new(
        field(FieldKind::Hour, 1, 9),
        field(FieldKind::Minute, 3, 0),
        field(FieldKind::Second, 0, 0),
        field(FieldKind::Year, 2, 5),
        field(FieldKind::Month, 0, 7),
        field(FieldKind::Day, 3, 1),
    )
    .expect("six fields in place");
    assert_eq!(reading.field(FieldKind::Hour), field(FieldKind::Hour, 1, 9));
    assert_eq!(reading.field(FieldKind::Minute), field(FieldKind::Minute, 3, 0));
    assert_eq!(reading.field(FieldKind::Second), field(FieldKind::Second, 0, 0));
    assert_eq!(reading.field(FieldKind::Year), field(FieldKind::Year, 2, 5));
    assert_eq!(reading.field(FieldKind::Month), field(FieldKind::Month, 0, 7));
    assert_eq!(reading.field(FieldKind::Day), field(FieldKind::Day, 3, 1));
}

#[test]
fn reading_rejects_a_field_out_of_place() {
    let minute = field(FieldKind::Minute, 3, 0);
    let second = field(FieldKind::Second, 0, 0);
    let misplaced = ClockReading::new(
        field(FieldKind::Hour, 1, 9),
        second,
        minute,
        field(FieldKind::Year, 2, 5),
        field(FieldKind::Month, 0, 7),
        field(FieldKind::Day, 3, 1),
    );
    assert_eq!(misplaced, None);
    let day_for_month = ClockReading::new(
        field(FieldKind::Hour, 1, 9),
        minute,
        second,
        field(FieldKind::Year, 2, 5),
        field(FieldKind::Day, 0, 7),
        field(FieldKind::Day, 3, 1),
    );
    assert_eq!(day_for_month, None);
}

#[test]
fn reading_does_not_ask_for_a_day_that_the_calendar_has() {
    // The six fields come from six reads; nothing ties them to one day.
    let reading = ClockReading::new(
        field(FieldKind::Hour, 0, 0),
        field(FieldKind::Minute, 0, 0),
        field(FieldKind::Second, 0, 0),
        field(FieldKind::Year, 2, 5),
        field(FieldKind::Month, 0, 2),
        field(FieldKind::Day, 3, 1),
    );
    assert!(reading.is_some());
}
