use pi_kernel::timer::{counter_value, SpinSleep};

#[test]
fn counter_joins_halves() {
    assert_eq!(counter_value(0, 0), 0);
    assert_eq!(counter_value(1, 2), (1u64 << 32) + 2);
    assert_eq!(counter_value(u32::MAX, u32::MAX), u64::MAX);
}

fn first_done(mut s: SpinSleep, readings: &[u64]) -> Option<u64> {
    for &now in readings {
        if s.observe(now) {
            return Some(now);
        }
    }
    None
}

#[test]
fn sleep_zero_ms_is_over_at_once() {
    assert_eq!(first_done(SpinSleep::for_ms(500, 0), &[500]), Some(500));
}

#[test]
fn sleep_one_ms_waits_a_thousand_us() {
    let readings: Vec<u64> = (0..3000).map(|t| 7 + t).collect();
    assert_eq!(first_done(SpinSleep::for_ms(7, 1), &readings), Some(1007));
}

#[test]
fn sleep_one_second_waits_a_million_us() {
    let readings: Vec<u64> = (0..2000).map(|t| 100 + t * 1000).collect();
    assert_eq!(first_done(SpinSleep::for_ms(100, 1000), &readings), Some(1_000_100));
}

#[test]
fn sleep_across_counter_wrap() {
    let start = u64::MAX - 10;
    let s = SpinSleep::new(start, 20);
    let readings = [u64::MAX - 5, u64::MAX, 0, 5, 8, 9, 12];
    assert_eq!(first_done(s, &readings), Some(9));
}

#[test]
fn reading_equal_to_start_is_no_wrap() {
    let mut s = SpinSleep::for_ms(u64::MAX, 1);
    assert!(!s.observe(u64::MAX));
    assert!(!s.observe(u64::MAX));
    assert!(!s.observe(0));
    assert!(!s.observe(998));
    assert!(s.observe(999));
}
