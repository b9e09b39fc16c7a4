use ore_miner::timing::{get_cutoff, should_reset, saturating_add_i64, saturating_sub_i64, u64_to_i64_wrapping};

#[test]
fn cutoff_is_time_left_in_window() {
    // one minute after the last hash, less the buffer, less the time now
    assert_eq!(get_cutoff(1_000, 0, 900), 160);
    assert_eq!(get_cutoff(1_000, 10, 900), 150);
}

#[test]
fn cutoff_never_below_fifty() {
    assert_eq!(get_cutoff(1_000, 10, 1_000), 50);
    assert_eq!(get_cutoff(1_000, 0, 5_000), 50);
    assert_eq!(get_cutoff(0, 0, i64::MAX), 50);
}

#[test]
fn cutoff_saturates_at_i64_bounds() {
    assert_eq!(get_cutoff(i64::MAX, 0, 0), i64::MAX as u64);
    assert_eq!(get_cutoff(i64::MAX - 10, 0, 0), i64::MAX as u64);
    assert_eq!(get_cutoff(0, 0, i64::MIN), i64::MAX as u64);
}

#[test]
fn cutoff_buffer_is_reinterpreted_as_i64() {
    // u64::MAX as i64 is -1, so the buffer adds a second
    assert_eq!(get_cutoff(1_000, u64::MAX, 900), 161);
}

#[test]
fn cutoff_does_not_grow_as_time_passes() {
    let mut last = u64::MAX;
    for now in [800i64, 850, 900, 950, 1_000, 1_100] {
        let c = get_cutoff(1_000, 5, now);
        assert!(c <= last);
        last = c;
    }
}

#[test]
fn reset_due_five_seconds_before_epoch_end() {
    // epochs last 300 seconds
    assert!(!should_reset(0, 294));
    assert!(should_reset(0, 295));
    assert!(should_reset(0, 10_000));
    assert!(!should_reset(1_000, 1_000));
}

#[test]
fn reset_stays_due() {
    let mut was_due = false;
    for now in 280i64..320 {
        let due = should_reset(0, now);
        assert!(!was_due || due);
        was_due = due;
    }
}

#[test]
fn reset_saturates() {
    assert!(should_reset(i64::MAX, i64::MAX));
    assert!(!should_reset(i64::MIN, i64::MIN));
    assert!(should_reset(i64::MIN, i64::MIN + 295));
}

#[test]
fn saturating_helpers() {
    assert_eq!(saturating_add_i64(i64::MAX, 1), i64::MAX);
    assert_eq!(saturating_add_i64(i64::MIN, -1), i64::MIN);
    assert_eq!(saturating_add_i64(2, 3), 5);
    assert_eq!(saturating_sub_i64(i64::MIN, 1), i64::MIN);
    assert_eq!(saturating_sub_i64(i64::MAX, -1), i64::MAX);
    assert_eq!(saturating_sub_i64(2, 3), -1);
    assert_eq!(u64_to_i64_wrapping(5), 5);
    assert_eq!(u64_to_i64_wrapping(u64::MAX), -1);
    assert_eq!(u64_to_i64_wrapping(1u64 << 63), i64::MIN);
}
