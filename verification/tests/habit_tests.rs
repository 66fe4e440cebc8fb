use habits::date::Date;
use habits::habit::{Bit, Count, CustomBool, Habit, TrackEvent, ViewMode};

fn d(year: u32, month: u32, day: u32) -> Date {
    Date::new(year, month, day).unwrap()
}

#[test]
fn date_validity() {
    assert!(Date::new(2024, 1, 1).is_some());
    assert!(Date::new(2024, 2, 29).is_some());
    assert!(Date::new(2023, 2, 29).is_none());
    assert!(Date::new(1900, 2, 29).is_none());
    assert!(Date::new(2000, 2, 29).is_some());
    assert!(Date::new(2024, 4, 31).is_none());
    assert!(Date::new(2024, 13, 1).is_none());
    assert!(Date::new(2024, 0, 1).is_none());
    assert!(Date::new(2024, 1, 0).is_none());
    assert!(Date::new(2024, 12, 31).is_some());
}

#[test]
fn date_fields_and_equality() {
    let a = d(2024, 1, 1);
    let b = d(2024, 1, 1);
    let c = d(2024, 1, 2);
    assert_eq!(a, b);
    assert_ne!(a, c);
    assert_eq!(a.year(), 2024);
    assert_eq!(a.month(), 1);
    assert_eq!(a.day(), 1);
}

#[test]
fn dates_order_by_calendar() {
    assert!(d(2024, 1, 1) < d(2024, 1, 2));
    assert!(d(2024, 1, 31) < d(2024, 2, 1));
    assert!(d(2024, 12, 31) < d(2025, 1, 1));
}

#[test]
fn view_mode_default_is_day() {
    assert_eq!(ViewMode::default(), ViewMode::Day);
}

#[test]
fn custom_bool_from_and_display() {
    let t = CustomBool::from(true);
    let f = CustomBool::from(false);
    assert!(t.0);
    assert!(!f.0);
    assert_eq!(t.display("x", "o"), " x ");
    assert_eq!(f.display("x", "o"), " o ");
}

#[test]
fn counter_untracked_owes_full_goal() {
    let c = Count::new("Pushups", 20);
    let day = d(2024, 1, 1);
    assert_eq!(c.remaining(day), 20);
    assert_eq!(c.remaining(day), c.goal());
    assert!(!c.reached_goal(day));
    assert_eq!(c.get_by_date(day), None);
}

#[test]
fn counter_first_touch_stores_one() {
    let day = d(2024, 1, 1);
    let mut inc = Count::new("a", 5);
    inc.modify(day, TrackEvent::Increment);
    assert_eq!(inc.get_by_date(day), Some(1));

    let mut dec = Count::new("b", 5);
    dec.modify(day, TrackEvent::Decrement);
    assert_eq!(dec.get_by_date(day), Some(1));
}

#[test]
fn counter_decrement_floors_at_zero() {
    let day = d(2024, 3, 14);
    let mut c = Count::new("water", 8);
    c.insert_entry(day, 2);
    c.modify(day, TrackEvent::Decrement);
    assert_eq!(c.get_by_date(day), Some(1));
    c.modify(day, TrackEvent::Decrement);
    assert_eq!(c.get_by_date(day), Some(0));
    c.modify(day, TrackEvent::Decrement);
    assert_eq!(c.get_by_date(day), Some(0));
}

#[test]
fn counter_reached_goal_iff_value_at_least_goal() {
    let day = d(2024, 5, 5);
    let mut c = Count::new("reps", 3);
    assert!(!c.reached_goal(day));
    c.insert_entry(day, 2);
    assert!(!c.reached_goal(day));
    c.insert_entry(day, 3);
    assert!(c.reached_goal(day));
    assert_eq!(c.remaining(day), 0);
    c.insert_entry(day, 7);
    assert!(c.reached_goal(day));
    assert_eq!(c.remaining(day), 0);
    assert_eq!(c.reached_goal(day), c.get_by_date(day) >= Some(c.goal()));
    assert_eq!(
        Count::new("fresh", 3).reached_goal(day),
        Count::new("fresh", 3).get_by_date(day) >= Some(3)
    );
}

#[test]
fn counter_insert_entry_overwrites() {
    let day = d(2024, 6, 1);
    let mut c = Count::new("laps", 10);
    c.insert_entry(day, 4);
    assert_eq!(c.get_by_date(day), Some(4));
    c.insert_entry(day, 9);
    assert_eq!(c.get_by_date(day), Some(9));
}

#[test]
fn counter_name_and_goal_edits() {
    let mut c = Count::new("old", 10);
    assert_eq!(c.name(), "old");
    c.set_name("new");
    assert_eq!(c.name(), "new");
    c.set_name("");
    assert_eq!(c.name(), "");
    c.set_goal(15);
    assert_eq!(c.goal(), 15);
}

#[test]
fn counter_view_state_accessors() {
    let mut c = Count::new("x", 1);
    assert_eq!(c.view_mode(), ViewMode::Day);
    assert_eq!(c.view_month_offset(), 0);
    c.set_view_mode(ViewMode::Year);
    c.set_view_month_offset(4);
    assert_eq!(c.view_mode(), ViewMode::Year);
    assert_eq!(c.view_month_offset(), 4);
    c.set_view_mode(ViewMode::Month);
    assert_eq!(c.view_mode(), ViewMode::Month);
}

#[test]
fn counter_pushups_scenario() {
    let day = d(2024, 1, 1);
    let mut c = Count::new("Pushups", 20);
    c.insert_entry(day, 15);
    c.modify(day, TrackEvent::Increment);
    assert_eq!(c.get_by_date(day), Some(16));
    assert_eq!(c.remaining(day), 4);
    assert!(!c.reached_goal(day));
    for _ in 0..4 {
        c.modify(day, TrackEvent::Increment);
    }
    assert_eq!(c.remaining(day), 0);
    assert!(c.reached_goal(day));
}

#[test]
fn toggle_modify_flips_regardless_of_event() {
    let day = d(2024, 2, 1);
    let mut b = Bit::new("Meditate");
    assert_eq!(b.get_by_date(day), None);
    b.modify(day, TrackEvent::Increment);
    assert_eq!(b.get_by_date(day), Some(CustomBool(true)));
    assert_eq!(b.remaining(day), 0);
    b.modify(day, TrackEvent::Decrement);
    assert_eq!(b.get_by_date(day), Some(CustomBool(false)));
    assert_eq!(b.remaining(day), 1);
    b.modify(day, TrackEvent::Increment);
    assert_eq!(b.get_by_date(day), Some(CustomBool(true)));
}

#[test]
fn toggle_first_touch_is_true_for_decrement_too() {
    let day = d(2024, 2, 2);
    let mut b = Bit::new("floss");
    b.modify(day, TrackEvent::Decrement);
    assert_eq!(b.get_by_date(day), Some(CustomBool(true)));
}

#[test]
fn toggle_goal_is_always_one() {
    let mut b = Bit::new("read");
    assert_eq!(b.goal(), 1);
    b.set_goal(CustomBool(false));
    assert_eq!(b.goal(), 1);
    b.set_goal(CustomBool(true));
    assert_eq!(b.goal(), 1);
}

#[test]
fn toggle_untracked_date() {
    let b = Bit::new("walk");
    let day = d(2024, 8, 8);
    assert!(!b.reached_goal(day));
    assert_eq!(b.remaining(day), 1);
}

#[test]
fn toggle_insert_entry_overwrites() {
    let day = d(2024, 9, 9);
    let mut b = Bit::new("nap");
    b.insert_entry(day, CustomBool(false));
    assert_eq!(b.get_by_date(day), Some(CustomBool(false)));
    assert_eq!(b.remaining(day), 1);
    b.insert_entry(day, CustomBool(true));
    assert_eq!(b.get_by_date(day), Some(CustomBool(true)));
    assert!(b.reached_goal(day));
}

#[test]
fn distinct_dates_are_independent() {
    let first = d(2024, 1, 1);
    let second = d(2024, 1, 2);
    let mut c = Count::new("rows", 2);
    c.modify(first, TrackEvent::Increment);
    assert_eq!(c.get_by_date(first), Some(1));
    assert_eq!(c.get_by_date(second), None);
    assert_eq!(c.remaining(second), 2);
}
