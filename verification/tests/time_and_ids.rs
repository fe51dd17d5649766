use sectxt::time::{Timestamp, MAX_TIMESTAMP_SECONDS, MIN_TIMESTAMP_SECONDS};

#[test]
fn timestamp_range_matches_chrono() {
    assert!(chrono::DateTime::from_timestamp(MAX_TIMESTAMP_SECONDS, 999_999_999).is_some());
    assert!(chrono::DateTime::from_timestamp(MAX_TIMESTAMP_SECONDS + 1, 0).is_none());
    assert!(chrono::DateTime::from_timestamp(MIN_TIMESTAMP_SECONDS, 0).is_some());
    assert!(chrono::DateTime::from_timestamp(MIN_TIMESTAMP_SECONDS - 1, 999_999_999).is_none());
    assert!(Timestamp::from_parts(MAX_TIMESTAMP_SECONDS, 999_999_999).is_some());
    assert!(Timestamp::from_parts(MAX_TIMESTAMP_SECONDS + 1, 0).is_none());
    assert!(Timestamp::from_parts(MIN_TIMESTAMP_SECONDS, 0).is_some());
    assert!(Timestamp::from_parts(MIN_TIMESTAMP_SECONDS - 1, 999_999_999).is_none());
    assert!(Timestamp::from_parts(0, 1_000_000_000).is_none());
}

#[test]
fn timestamp_checked_add() {
    let t = Timestamp::from_parts(10, 123).unwrap();
    let later = t.checked_add_seconds(5).unwrap();
    assert_eq!((later.secs(), later.subsec_nanos()), (15, 123));
    let earlier = t.checked_add_seconds(-20).unwrap();
    assert_eq!((earlier.secs(), earlier.subsec_nanos()), (-10, 123));
    let max = Timestamp::from_parts(MAX_TIMESTAMP_SECONDS, 999_999_999).unwrap();
    assert!(max.checked_add_seconds(1).is_none());
    assert_eq!(max.checked_add_seconds(0).unwrap(), max);
    let min = Timestamp::from_parts(MIN_TIMESTAMP_SECONDS, 0).unwrap();
    assert!(min.checked_add_seconds(-1).is_none());
    assert!(min.checked_add_seconds(i64::MAX).is_none());
}

#[test]
fn timestamp_order_keeps_nanoseconds() {
    let a = Timestamp::from_parts(7, 1).unwrap();
    let b = Timestamp::from_parts(7, 2).unwrap();
    assert!(b.is_after(&a));
    assert!(!a.is_after(&b));
    assert!(!a.is_after(&a));
    let c = Timestamp::from_parts(6, 999_999_999).unwrap();
    assert!(a.is_after(&c));
}

#[test]
fn timestamp_now_follows_clock() {
    let before = chrono::Utc::now();
    let t = Timestamp::now();
    let after = chrono::Utc::now();
    let at = chrono::DateTime::from_timestamp(t.secs(), t.subsec_nanos()).unwrap();
    assert!(before <= at && at <= after);
}

#[test]
fn timestamp_holds_leap_seconds_as_chrono_does() {
    // 1483228799 is 2016-12-31T23:59:59Z, the last second of a minute.
    let leap = Timestamp::from_parts(1_483_228_799, 1_500_000_000).unwrap();
    assert!(chrono::DateTime::from_timestamp(1_483_228_799, 1_500_000_000).is_some());
    assert!(Timestamp::from_parts(1_483_228_798, 1_500_000_000).is_none());
    assert!(chrono::DateTime::from_timestamp(1_483_228_798, 1_500_000_000).is_none());
    assert!(Timestamp::from_parts(1_483_228_799, 2_000_000_000).is_none());
    assert!(Timestamp::from_parts(-1, 1_000_000_000).is_some());
    assert!(Timestamp::from_parts(59, 1_999_999_999).is_some());

    let next = leap.checked_add_seconds(1).unwrap();
    assert_eq!((next.secs(), next.subsec_nanos()), (1_483_228_800, 500_000_000));
    let back = leap.checked_add_seconds(-1).unwrap();
    assert_eq!((back.secs(), back.subsec_nanos()), (1_483_228_799, 500_000_000));
    let same = leap.checked_add_seconds(0).unwrap();
    assert_eq!((same.secs(), same.subsec_nanos()), (1_483_228_799, 1_500_000_000));

    let before = Timestamp::from_parts(1_483_228_799, 999_999_999).unwrap();
    assert!(leap.is_after(&before));
    assert!(next.is_after(&leap));
}
