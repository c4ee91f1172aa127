use rendercore::time::Time;

#[test]
fn first_update_delta_is_elapsed_since_construction() {
    let mut t = Time::new(1_000);
    t.update(3_000);
    assert_eq!(t.delta_us, 2_000);
    assert_eq!(t.last_update_us, Some(3_000));
    assert_eq!(t.start_us, 1_000);
}

#[test]
fn later_updates_measure_from_previous_sample() {
    let mut t = Time::new(0);
    t.update(500);
    assert_eq!(t.delta_us, 500);
    t.update(1_600);
    assert_eq!(t.delta_us, 1_100);
    t.update(1_600);
    assert_eq!(t.delta_us, 0);
}

#[test]
fn default_clock_starts_at_zero() {
    let t = Time::default();
    assert_eq!(t.start_us, 0);
    assert_eq!(t.last_update_us, None);
    assert_eq!(t.delta_us, 0);
}

#[test]
fn delta_never_negative_over_a_run() {
    let mut t = Time::new(10);
    for now in [10u64, 11, 400, 400, 100_000] {
        t.update(now);
        // u64 already rules out a negative delta; check it is the
        // expected non-negative difference as well
        assert!(t.delta_us <= now);
    }
}
