use chrono::{Datelike, Timelike};
use bevy_turborand::RngComponent;
use kingdom_sim::common::{Countdown, VariableCountdown};
use kingdom_sim::countdown_heap::ProducerHeap;
use kingdom_sim::datetime::{
    current_hour, date_time_display_text, format_date_time, is_calendar_timestamp, format_time_tooltip, sun_interval_tracker_value,
    tooltip_text, u32_to_decimal, GameTime,
};
use kingdom_sim::entity::EntityId;

#[test]
fn countdown_yields_once_every_n_plus_one_ticks() {
    let mut c = Countdown::new(3);
    let yields: Vec<bool> = (0..8).map(|_| c.tick_yield()).collect();
    assert_eq!(yields, vec![false, false, false, true, false, false, false, true]);
    assert_eq!(c.current_value, 3);
    let mut zero = Countdown::new(0);
    assert!(zero.tick_yield());
    assert!(zero.tick_yield());
}

#[test]
fn variable_countdown_draws_within_range() {
    let mut rng = RngComponent::with_seed(7);
    let mut c = VariableCountdown::new(5..6);
    // the first draw only starts the countdown: 5 drawn, one tick spent
    assert!(!c.tick_yield(&mut rng));
    assert_eq!(c.current_value, 4);
    assert!(!c.pristine);
    for _ in 0..4 {
        assert!(!c.tick_yield(&mut rng));
    }
    assert!(c.tick_yield(&mut rng));
    assert_eq!(c.current_value, 5);
    let mut wide = VariableCountdown::new(2..9);
    for _ in 0..100 {
        wide.tick_yield(&mut rng);
        assert!(wide.current_value < 9);
    }
}

#[test]
fn producer_heap_produces_when_due() {
    let mut heap = ProducerHeap::new();
    heap.push(EntityId(1), 2);
    heap.push(EntityId(2), 1);
    heap.push(EntityId(3), 2);
    assert_eq!(heap.try_produce(), vec![EntityId(2)]);
    assert_eq!(heap.try_produce(), vec![EntityId(1), EntityId(3)]);
    assert!(heap.try_produce().is_empty());
    assert!(heap.heap.is_empty());
}

#[test]
fn producer_heap_blocked_by_overdue_entry() {
    let mut heap = ProducerHeap::new();
    heap.push(EntityId(1), 0);
    heap.push(EntityId(2), 1);
    assert!(heap.try_produce().is_empty());
    assert_eq!(heap.heap.len(), 2);
    assert_eq!(heap.tick, 1);
}

#[test]
fn decimal_notation() {
    assert_eq!(u32_to_decimal(0), "0");
    assert_eq!(u32_to_decimal(7), "7");
    assert_eq!(u32_to_decimal(40), "40");
    assert_eq!(u32_to_decimal(u32::MAX), u32::MAX.to_string());
}

#[test]
fn date_time_display() {
    assert_eq!(format_date_time(5, 3, 0), "June  3:00");
    assert_eq!(format_date_time(11, 23, 59), "December 23:59");
    // 2023-06-01T03:00:00Z, the start of the game
    let start = GameTime(1685588400);
    assert_eq!(date_time_display_text(&start), "June  3:00");
    assert_eq!(current_hour(&start).0, 3);
    let later = GameTime(1685588400 + 3600 * 8 + 60 * 5);
    assert_eq!(date_time_display_text(&later), "June 11:05");
    // before 1970
    assert_eq!(date_time_display_text(&GameTime(-60)), "December 23:59");
}

#[test]
fn clock_tooltip() {
    assert_eq!(format_time_tooltip(3, 0), "3:00");
    assert_eq!(format_time_tooltip(14, 8), "14:08");
    assert_eq!(format_time_tooltip(14, 9), "14:9");
    assert_eq!(format_time_tooltip(14, 30), "14:30");
    assert_eq!(tooltip_text(&GameTime(1685588400 + 7 * 60)), "3:07");
}

#[test]
fn game_time_ticks_half_a_minute() {
    let mut t = GameTime(1685588400);
    for _ in 0..120 {
        t.tick();
    }
    assert_eq!(t.0, 1685588400 + 3600);
    assert_eq!(current_hour(&t).0, 4);
}

#[test]
fn sun_tracker_rounds_to_five_minutes() {
    let day = 1685577600; // 2023-06-01T00:00:00Z
    assert_eq!(sun_interval_tracker_value(&GameTime(day + 3 * 3600)), 36);
    assert_eq!(sun_interval_tracker_value(&GameTime(day + 3 * 3600 + 2 * 60)), 36);
    assert_eq!(sun_interval_tracker_value(&GameTime(day + 3 * 3600 + 3 * 60)), 37);
    assert_eq!(sun_interval_tracker_value(&GameTime(day + 23 * 3600 + 59 * 60)), 288);
}

#[test]
fn producer_heap_keeps_every_entry() {
    let mut heap = ProducerHeap::new();
    heap.push(EntityId(1), 1);
    heap.push(EntityId(2), 3);
    heap.push(EntityId(3), 1);
    heap.push(EntityId(4), 2);
    let produced = heap.try_produce();
    assert_eq!(produced.len() + heap.heap.len(), 4);
    assert_eq!(produced, vec![EntityId(1), EntityId(3)]);
    assert_eq!(heap.heap, vec![(EntityId(2), 3), (EntityId(4), 2)]);
}

#[test]
fn calendar_timestamps_are_those_chrono_holds() {
    for t in [0i64, 1_685_588_400, 8_210_266_876_799, 8_210_266_876_800, -8_334_601_228_800, -8_334_601_228_801, i64::MAX, i64::MIN] {
        assert_eq!(is_calendar_timestamp(t), chrono::DateTime::from_timestamp(t, 0).is_some(), "timestamp {}", t);
    }
    assert!(is_calendar_timestamp(8_210_266_876_799));
    assert!(!is_calendar_timestamp(8_210_266_876_800));
    assert!(is_calendar_timestamp(-8_334_601_228_800));
    assert!(!is_calendar_timestamp(-8_334_601_228_801));
}

#[test]
fn hour_of_the_day_matches_chrono_also_before_1970() {
    for t in [-1i64, -3_601, -86_400, -8_334_601_228_800, 8_210_266_876_799, 1_685_588_400 + 7_799] {
        let expected = chrono::DateTime::from_timestamp(t, 0).unwrap();
        assert_eq!(current_hour(&GameTime(t)).0, expected.hour(), "timestamp {}", t);
    }
    assert_eq!(tooltip_text(&GameTime(-1)), "23:59");
}

#[test]
fn date_display_matches_chrono_calendar() {
    for t in [-1i64, 0, 951_782_400, 1_685_588_400, -8_334_601_228_800, 8_210_266_876_799] {
        let d = chrono::DateTime::from_timestamp(t, 0).unwrap();
        assert_eq!(date_time_display_text(&GameTime(t)), format_date_time(d.month0(), d.hour(), d.minute()), "timestamp {}", t);
    }
    // 2000-02-29 00:00 UTC, a leap day
    assert_eq!(date_time_display_text(&GameTime(951_782_400)), "February  0:00");
}
