use habits::codec::{decode, decode_all, encode, encode_all, DecodeError, EncodedHabit, KIND_BIT,
    KIND_COUNT};
use habits::date::Date;
use habits::habit::{Bit, Count, CustomBool, Habit, TrackEvent, ViewMode};
use habits::wrapper::HabitWrapper;

fn d(year: u32, month: u32, day: u32) -> Date {
    Date::new(year, month, day).unwrap()
}

#[test]
fn wrapper_dispatches_to_the_wrapped_kind() {
    let day = d(2024, 4, 4);
    let mut habits = vec![
        HabitWrapper::Count(Count::new("Pushups", 20)),
        HabitWrapper::Bit(Bit::new("Meditate")),
    ];
    assert_eq!(habits[0].goal(), 20);
    assert_eq!(habits[1].goal(), 1);
    assert_eq!(habits[0].get_name(), "Pushups");
    assert_eq!(habits[1].get_name(), "Meditate");
    habits[0].modify(day, TrackEvent::Increment);
    habits[1].modify(day, TrackEvent::Increment);
    assert_eq!(habits[0].remaining(day), 19);
    assert_eq!(habits[1].remaining(day), 0);
    assert!(!habits[0].reached_goal(day));
    assert!(habits[1].reached_goal(day));
}

#[test]
fn wrapper_view_state() {
    let mut w = HabitWrapper::Bit(Bit::new("b"));
    assert_eq!(w.view_mode(), ViewMode::Day);
    assert_eq!(w.view_month_offset(), 0);
    w.set_view_mode(ViewMode::Month);
    w.set_view_month_offset(2);
    assert_eq!(w.view_mode(), ViewMode::Month);
    assert_eq!(w.view_month_offset(), 2);
}

#[test]
fn encode_tags_each_kind() {
    let count_record = encode(&HabitWrapper::Count(Count::new("a", 3)));
    let bit_record = encode(&HabitWrapper::Bit(Bit::new("b")));
    assert_eq!(count_record.kind, KIND_COUNT);
    assert_eq!(bit_record.kind, KIND_BIT);
    assert_eq!(count_record.name, "a");
    assert_eq!(bit_record.name, "b");
    assert_eq!(count_record.goal, 3);
    assert_eq!(bit_record.goal, 1);
}

#[test]
fn round_trip_preserves_a_mixed_collection() {
    let day1 = d(2024, 1, 1);
    let day2 = d(2024, 1, 2);

    let mut c = Count::new("Pushups", 20);
    c.insert_entry(day1, 15);
    c.insert_entry(day2, 20);
    c.set_view_mode(ViewMode::Year);
    c.set_view_month_offset(7);

    let mut b = Bit::new("Meditate");
    b.insert_entry(day1, CustomBool(true));
    b.insert_entry(day2, CustomBool(false));
    b.set_view_mode(ViewMode::Month);
    b.set_view_month_offset(3);

    let habits = vec![HabitWrapper::Count(c), HabitWrapper::Bit(b)];
    let records = encode_all(&habits);
    assert_eq!(records.len(), 2);
    let restored = decode_all(&records).unwrap();
    assert_eq!(restored.len(), 2);

    match &restored[0] {
        HabitWrapper::Count(rc) => {
            assert_eq!(rc.name(), "Pushups");
            assert_eq!(rc.goal(), 20);
            assert_eq!(rc.get_by_date(day1), Some(15));
            assert_eq!(rc.get_by_date(day2), Some(20));
            assert_eq!(rc.get_by_date(d(2024, 1, 3)), None);
            assert_eq!(rc.view_mode(), ViewMode::Day);
            assert_eq!(rc.view_month_offset(), 0);
        }
        _ => panic!("counter came back as the wrong kind"),
    }
    match &restored[1] {
        HabitWrapper::Bit(rb) => {
            assert_eq!(rb.name(), "Meditate");
            assert_eq!(rb.goal(), 1);
            assert_eq!(rb.get_by_date(day1), Some(CustomBool(true)));
            assert_eq!(rb.get_by_date(day2), Some(CustomBool(false)));
            assert_eq!(rb.view_mode(), ViewMode::Day);
            assert_eq!(rb.view_month_offset(), 0);
        }
        _ => panic!("toggle came back as the wrong kind"),
    }
}

#[test]
fn unknown_discriminant_is_rejected() {
    let record = EncodedHabit {
        kind: 99,
        name: String::from("mystery"),
        entries: vec![(d(2024, 1, 1), 1)],
        goal: 1,
    };
    let err = decode(&record).unwrap_err();
    assert_eq!(err, DecodeError::UnknownVariant(99));
    assert_eq!(err.message(), "unknown habit kind");
}

#[test]
fn one_unknown_record_fails_the_whole_load() {
    let good = encode(&HabitWrapper::Count(Count::new("ok", 1)));
    let bad = EncodedHabit { kind: 0, name: String::from("bad"), entries: vec![], goal: 0 };
    let records = vec![good, bad];
    assert_eq!(decode_all(&records).unwrap_err(), DecodeError::UnknownVariant(0));
}

#[test]
fn decode_clamps_out_of_range_values() {
    let day = d(2024, 1, 1);
    let record = EncodedHabit {
        kind: KIND_COUNT,
        name: String::from("big"),
        entries: vec![(day, u64::from(u32::MAX) + 5)],
        goal: u64::from(u32::MAX) + 5,
    };
    match decode(&record).unwrap() {
        HabitWrapper::Count(c) => {
            assert_eq!(c.get_by_date(day), Some(u32::MAX));
            assert_eq!(c.goal(), u32::MAX);
        }
        _ => panic!("counter record decoded to the wrong kind"),
    }

    let flag_record = EncodedHabit {
        kind: KIND_BIT,
        name: String::from("flag"),
        entries: vec![(day, 7)],
        goal: 1,
    };
    match decode(&flag_record).unwrap() {
        HabitWrapper::Bit(b) => {
            assert_eq!(b.get_by_date(day), Some(CustomBool(true)));
        }
        _ => panic!("toggle record decoded to the wrong kind"),
    }
}

#[test]
fn later_entry_for_the_same_date_wins_when_decoding() {
    let day = d(2024, 1, 1);
    let record = EncodedHabit {
        kind: KIND_COUNT,
        name: String::from("dup"),
        entries: vec![(day, 2), (day, 5)],
        goal: 9,
    };
    match decode(&record).unwrap() {
        HabitWrapper::Count(c) => {
            assert_eq!(c.get_by_date(day), Some(5));
        }
        _ => panic!("counter record decoded to the wrong kind"),
    }
}
