use crypto_feeds::time::{Duration, Timestamp};

#[test]
fn spans_are_built_from_their_parts() {
    assert_eq!(Duration::new(1, 500_000_000), Some(Duration::from_millis(1500)));
    assert_eq!(Duration::new(1, 1_000_000_000), Some(Duration::from_secs(2)));
    assert_eq!(Duration::new(0, 4_294_967_295).unwrap().as_secs(), 4);
    assert_eq!(Duration::new(0, 4_294_967_295).unwrap().subsec_nanos(), 294_967_295);
    assert_eq!(Duration::new(u64::MAX, 999_999_999).unwrap().as_secs(), u64::MAX);
    assert_eq!(Duration::new(u64::MAX, 1_000_000_000), None);
    assert_eq!(Duration::new(u64::MAX - 4, 4_294_967_295).unwrap().as_secs(), u64::MAX);
    assert_eq!(Duration::new(u64::MAX - 3, 4_294_967_295), None);
}

#[test]
fn spans_are_measured_in_nanoseconds() {
    assert_eq!(Duration::from_secs(3).as_nanos(), 3_000_000_000);
    assert_eq!(Duration::from_millis(1).as_nanos(), 1_000_000);
    assert_eq!(Duration::from_millis(u64::MAX).as_nanos(), u64::MAX as u128 * 1_000_000);
    assert_eq!(Duration::from_nanos(1_500_000_000), Some(Duration::from_millis(1500)));
    assert_eq!(Duration::from_nanos(0), Some(Duration::from_secs(0)));
    let most = u64::MAX as u128 * 1_000_000_000 + 999_999_999;
    assert_eq!(Duration::from_nanos(most), Duration::new(u64::MAX, 999_999_999));
    assert_eq!(Duration::from_nanos(most + 1), None);
    assert_eq!(Duration::from_nanos(u128::MAX), None);
}

#[test]
fn instants_before_the_epoch_count_backwards() {
    assert_eq!(Timestamp::from_millis(1500), Timestamp { secs: 1, nanos: 500_000_000 });
    assert_eq!(Timestamp::from_millis(-1), Timestamp { secs: -1, nanos: 999_000_000 });
    assert_eq!(Timestamp::from_millis(-1000), Timestamp { secs: -1, nanos: 0 });
    assert_eq!(Timestamp::from_millis(-1001), Timestamp { secs: -2, nanos: 999_000_000 });
    assert_eq!(Timestamp::from_millis(0), Timestamp::from_secs(0));
    assert_eq!(Timestamp::from_millis(i64::MIN).as_nanos(), i64::MIN as i128 * 1_000_000);
    assert_eq!(Timestamp::from_millis(i64::MAX).as_nanos(), i64::MAX as i128 * 1_000_000);
    assert_eq!(Timestamp { secs: -1, nanos: 1 }.as_nanos(), -999_999_999);
}

#[test]
fn elapsed_time_is_compared_exactly() {
    let start = Timestamp::from_secs(100);
    let limit = Duration::from_secs(90);
    assert!(!Timestamp::from_secs(190).elapsed_exceeds(&start, &limit));
    assert!(Timestamp { secs: 190, nanos: 1 }.elapsed_exceeds(&start, &limit));
    assert!(!Timestamp::from_secs(50).elapsed_exceeds(&start, &limit));
    assert!(!start.elapsed_exceeds(&start, &Duration::from_secs(0)));
    assert!(Timestamp { secs: 100, nanos: 1 }.elapsed_exceeds(&start, &Duration::from_secs(0)));
    let first = Timestamp { secs: i64::MIN, nanos: 0 };
    let last = Timestamp { secs: i64::MAX, nanos: u32::MAX };
    assert!(last.elapsed_exceeds(&first, &Duration::from_secs(u64::MAX / 2)));
    assert!(!first.elapsed_exceeds(&last, &Duration::from_secs(0)));
    assert!(last.elapsed_exceeds(&first, &Duration::from_secs(u64::MAX)));
    let whole = Timestamp { secs: i64::MAX, nanos: 0 };
    assert!(!whole.elapsed_exceeds(&first, &Duration::from_secs(u64::MAX)));
    assert!(whole.elapsed_exceeds(&first, &Duration::from_secs(u64::MAX - 1)));
}
