use layout_carousel_niri::duration::{
    Duration, DEFAULT_DURATION_MILLIS, MAX_DURATION_MILLIS, MIN_DURATION_MILLIS,
};
use layout_carousel_niri::error::CarouselError;
use layout_carousel_niri::state::{handle_layout_switch, CarouselData};

#[test]
fn duration_validation_boundaries() {
    assert!(Duration(MIN_DURATION_MILLIS).within_range());
    assert!(Duration(400).within_range());
    assert!(Duration(999).within_range());
    assert!(!Duration(MAX_DURATION_MILLIS).within_range());
    assert!(!Duration(199).within_range());
    assert!(!Duration(0).within_range());
    assert!(!Duration(1500).within_range());
}

#[test]
fn duration_default_is_400_millis() {
    assert_eq!(Duration::default(), Duration(DEFAULT_DURATION_MILLIS));
    assert_eq!(DEFAULT_DURATION_MILLIS, 400);
}

#[test]
fn duration_satisfies_is_strict() {
    let d = Duration(400);
    assert!(d.satisfies(399));
    assert!(d.satisfies(0));
    assert!(d.satisfies(-100));
    assert!(!d.satisfies(400));
    assert!(!d.satisfies(401));
}

#[test]
fn fresh_state_is_identity_order() {
    let d = CarouselData::create_default(5, 1_000);
    assert_eq!(d.layouts, vec![0, 1, 2, 3, 4]);
    assert_eq!(d.index_frequent, 0);
    assert_eq!(d.index_rotational, 0);
    assert_eq!(d.counter, 0);
    assert_eq!(d.sum_time, 0);
    assert_eq!(d.last_time, 1_000);
    assert_eq!(d.max_duration, Duration(400));
}

#[test]
fn isolated_switch_toggles_active_slot() {
    let mut d = CarouselData::create_default(4, 0);
    // A lone press long after creation: a streak of one.
    let target = handle_layout_switch(&mut d, 5_000);
    assert_eq!(d.counter, 1);
    assert_eq!(d.index_frequent, 1);
    assert_eq!(d.layouts, vec![0, 1, 2, 3]);
    assert_eq!(target, Some(d.layouts[d.index_frequent]));
    assert_eq!(target, Some(1));

    // Another lone press toggles straight back.
    let target = handle_layout_switch(&mut d, 10_000);
    assert_eq!(d.counter, 1);
    assert_eq!(d.index_frequent, 0);
    assert_eq!(d.layouts, vec![0, 1, 2, 3]);
    assert_eq!(target, Some(0));
}

#[test]
fn double_press_swaps_in_third_layout() {
    let mut d = CarouselData::create_default(4, 0);
    let first = handle_layout_switch(&mut d, 5_000);
    assert_eq!(first, Some(1));
    // 100 ms later: well inside the default 400 ms window.
    let second = handle_layout_switch(&mut d, 5_100);
    assert_eq!(d.counter, 2);
    assert_eq!(d.index_frequent, 0);
    assert_eq!(d.index_rotational, 2);
    assert_eq!(d.layouts, vec![2, 1, 0, 3]);
    assert_eq!(second, Some(2));
}

#[test]
fn rapid_presses_cycle_through_remaining_layouts() {
    let mut d = CarouselData::create_default(4, 0);
    handle_layout_switch(&mut d, 5_000);
    handle_layout_switch(&mut d, 5_100);
    assert_eq!(d.layouts, vec![2, 1, 0, 3]);

    // Third press: the candidate steps to slot 3 and swaps with slot 0.
    let third = handle_layout_switch(&mut d, 5_200);
    assert_eq!(d.counter, 3);
    assert_eq!(d.index_frequent, 0);
    assert_eq!(d.index_rotational, 3);
    assert_eq!(d.layouts, vec![3, 1, 0, 2]);
    assert_eq!(third, Some(3));

    // Fourth press: the candidate wraps onto slot 0; the swap is a no-op.
    let fourth = handle_layout_switch(&mut d, 5_300);
    assert_eq!(d.counter, 4);
    assert_eq!(d.index_frequent, 0);
    assert_eq!(d.index_rotational, 0);
    assert_eq!(d.layouts, vec![3, 1, 0, 2]);
    assert_eq!(fourth, Some(3));

    // Fifth press: the candidate reaches slot 1 and swaps with slot 0.
    let fifth = handle_layout_switch(&mut d, 5_400);
    assert_eq!(d.counter, 5);
    assert_eq!(d.index_rotational, 1);
    assert_eq!(d.layouts, vec![1, 3, 0, 2]);
    assert_eq!(fifth, Some(1));
}

#[test]
fn a_slow_press_ends_the_streak() {
    let mut d = CarouselData::create_default(4, 0);
    handle_layout_switch(&mut d, 5_000);
    handle_layout_switch(&mut d, 5_100);
    assert_eq!(d.counter, 2);
    // 400 ms is not strictly inside the 400 ms window: a new streak starts.
    let target = handle_layout_switch(&mut d, 5_500);
    assert_eq!(d.counter, 1);
    assert_eq!(d.index_frequent, 1);
    assert_eq!(d.layouts, vec![2, 1, 0, 3]);
    assert_eq!(target, Some(1));
}

#[test]
fn fewer_than_two_layouts_is_a_no_op() {
    let mut d = CarouselData::create_default(1, 42);
    let before = d.clone();
    let target = handle_layout_switch(&mut d, 9_999);
    assert_eq!(target, None);
    assert_eq!(d.last_time, before.last_time);
    assert_eq!(d.layouts, before.layouts);
    assert_eq!(d.index_frequent, before.index_frequent);
    assert_eq!(d.index_rotational, before.index_rotational);
    assert_eq!(d.sum_time, before.sum_time);
    assert_eq!(d.counter, before.counter);
    assert_eq!(d.max_duration, before.max_duration);

    let mut empty = CarouselData::create_default(0, 0);
    assert_eq!(handle_layout_switch(&mut empty, 1_000), None);
    assert_eq!(empty.counter, 0);
}

#[test]
fn record_round_trip_is_exact() {
    let mut d = CarouselData::create_default(4, 0);
    handle_layout_switch(&mut d, 5_000);
    handle_layout_switch(&mut d, 5_100);
    d.set_max_duration(Duration(250)).unwrap();

    let loaded = CarouselData::from_record(
        d.last_time,
        d.layouts.clone(),
        d.index_frequent,
        d.index_rotational,
        d.sum_time,
        d.counter,
        Some(d.max_duration),
    )
    .expect("a saved record loads back");
    assert_eq!(loaded.last_time, d.last_time);
    assert_eq!(loaded.layouts, d.layouts);
    assert_eq!(loaded.index_frequent, d.index_frequent);
    assert_eq!(loaded.index_rotational, d.index_rotational);
    assert_eq!(loaded.sum_time, d.sum_time);
    assert_eq!(loaded.counter, d.counter);
    assert_eq!(loaded.max_duration, d.max_duration);
}

#[test]
fn record_without_window_loads_with_default() {
    let loaded = CarouselData::from_record(7_000, vec![2, 0, 1], 1, 2, 0, 3, None)
        .expect("an old record without the window field loads");
    assert_eq!(loaded.max_duration, Duration(400));
    assert_eq!(loaded.layouts, vec![2, 0, 1]);
    assert_eq!(loaded.counter, 3);
}

#[test]
fn corrupt_records_are_rejected() {
    // Duplicate layout entries.
    assert!(CarouselData::from_record(0, vec![0, 0, 1], 0, 0, 0, 1, None).is_none());
    // An entry outside 0..n.
    assert!(CarouselData::from_record(0, vec![0, 3, 1], 0, 0, 0, 1, None).is_none());
    // Candidate pointer out of range.
    assert!(CarouselData::from_record(0, vec![0, 1, 2], 0, 3, 0, 1, None).is_none());
    // Active pointer outside the two toggling slots.
    assert!(CarouselData::from_record(0, vec![0, 1, 2], 2, 0, 0, 1, None).is_none());
    // A stored window outside the accepted range.
    assert!(
        CarouselData::from_record(0, vec![0, 1, 2], 0, 0, 0, 1, Some(Duration(1500))).is_none()
    );
    // A gap carried over without any streak.
    assert!(CarouselData::from_record(0, vec![0, 1, 2], 0, 0, 77, 0, None).is_none());
}

#[test]
fn setting_an_invalid_window_is_rejected() {
    let mut d = CarouselData::create_default(3, 0);
    let r = d.set_max_duration(Duration(1500));
    assert_eq!(
        r,
        Err(CarouselError::IncorrectMaxDuration {
            max_duration: Duration(1500)
        })
    );
    assert_eq!(d.max_duration, Duration(400));

    let r = d.set_max_duration(Duration(199));
    assert!(r.is_err());
    assert_eq!(d.max_duration, Duration(400));
}

#[test]
fn setting_a_valid_window_is_stored() {
    let mut d = CarouselData::create_default(3, 0);
    assert_eq!(d.set_max_duration(Duration(200)), Ok(()));
    assert_eq!(d.max_duration, Duration(200));
    assert_eq!(d.set_max_duration(Duration(999)), Ok(()));
    assert_eq!(d.max_duration, Duration(999));
    assert_eq!(d.counter, 0);
    assert_eq!(d.layouts, vec![0, 1, 2]);
}

#[test]
fn streak_counter_saturates() {
    let d = CarouselData::create_default(3, 0);
    // Load a record sitting at the counter's cap mid-streak.
    let mut d2 = CarouselData::from_record(
        d.last_time,
        d.layouts.clone(),
        d.index_frequent,
        d.index_rotational,
        0,
        255,
        Some(d.max_duration),
    )
    .expect("a capped record is well formed");
    let target = handle_layout_switch(&mut d2, 100);
    assert_eq!(d2.counter, 255);
    assert!(target.is_some());
}
