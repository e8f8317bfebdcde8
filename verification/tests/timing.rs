use tutorial::timing::{micros_to_ticks, millis_to_ticks, MAX_DELAY_MICROS, MAX_DELAY_MILLIS, TICK_HZ};

#[test]
fn millis_round_up_to_ticks() {
    assert_eq!(millis_to_ticks(500), Some(16384));
    assert_eq!(millis_to_ticks(1000), Some(TICK_HZ));
    assert_eq!(millis_to_ticks(1), Some(33));
    assert_eq!(millis_to_ticks(0), Some(0));
}

#[test]
fn micros_round_up_to_ticks() {
    assert_eq!(micros_to_ticks(1_000_000), Some(32768));
    assert_eq!(micros_to_ticks(10), Some(1));
    assert_eq!(micros_to_ticks(0), Some(0));
}

#[test]
fn overflowing_delays_are_refused() {
    assert!(millis_to_ticks(MAX_DELAY_MILLIS).is_some());
    assert_eq!(millis_to_ticks(MAX_DELAY_MILLIS + 1), None);
    assert!(micros_to_ticks(MAX_DELAY_MICROS).is_some());
    assert_eq!(micros_to_ticks(MAX_DELAY_MICROS + 1), None);
    assert_eq!(millis_to_ticks(u64::MAX), None);
}
