use bamep::envelope::MessageTimestamp;
use bamep::time::{TimeDelta, Timestamp, MAX_INSTANT_NANOS, MIN_INSTANT_NANOS};
use chrono::{DateTime, Utc};

#[test]
fn instant_range_is_chronos() {
    let max = DateTime::<Utc>::MAX_UTC;
    let min = DateTime::<Utc>::MIN_UTC;
    let latest = Timestamp::from_unix_nanos(MAX_INSTANT_NANOS).unwrap();
    let earliest = Timestamp::from_unix_nanos(MIN_INSTANT_NANOS).unwrap();
    assert_eq!(latest.unix_seconds(), max.timestamp());
    assert_eq!(latest.subsec_nanos(), max.timestamp_subsec_nanos());
    assert_eq!(earliest.unix_seconds(), min.timestamp());
    assert_eq!(earliest.subsec_nanos(), min.timestamp_subsec_nanos());
    assert_eq!(Timestamp::from_unix_nanos(MAX_INSTANT_NANOS + 1), None);
    assert_eq!(Timestamp::from_unix_nanos(MIN_INSTANT_NANOS - 1), None);
    assert_eq!(Timestamp::from_unix_micros(i64::MAX), None);
    assert!(DateTime::<Utc>::from_timestamp_micros(i64::MAX).is_none());
}

#[test]
fn sums_past_the_range_are_refused_as_chrono_refuses_them() {
    let latest = Timestamp::from_unix_nanos(MAX_INSTANT_NANOS).unwrap();
    let one = TimeDelta::microseconds(1);
    assert_eq!(latest.checked_add(one), None);
    assert!(DateTime::<Utc>::MAX_UTC.checked_add_signed(chrono::TimeDelta::microseconds(1)).is_none());
    let earlier = latest.checked_sub(one).unwrap();
    assert_eq!(earlier.checked_add(one), Some(latest));
    assert_eq!(earlier.add(one), latest);
}

#[test]
fn instants_are_ordered_to_the_nanosecond() {
    let a = Timestamp::from_unix_parts(1_700_000_000, 123_456_000).unwrap();
    let b = Timestamp::from_unix_parts(1_700_000_000, 123_456_001).unwrap();
    assert!(a.is_before(&b));
    assert!(!b.is_before(&a));
    assert_eq!(a.unix_micros(), b.unix_micros());
    assert_eq!(b.unix_nanos() - a.unix_nanos(), 1);
    assert_eq!(Timestamp::from_unix_parts(0, 1_000_000_000), None);
}

#[test]
fn parts_match_chrono_before_the_epoch() {
    let chrono_value = DateTime::<Utc>::from_timestamp(-2, 250_000_000).unwrap();
    let t = Timestamp::from_unix_parts(-2, 250_000_000).unwrap();
    assert_eq!(t.unix_seconds(), chrono_value.timestamp());
    assert_eq!(t.subsec_nanos(), chrono_value.timestamp_subsec_nanos());
    assert_eq!(t.unix_micros(), chrono_value.timestamp_micros());
    assert_eq!(t.unix_nanos(), -1_750_000_000);
}

#[test]
fn durations_match_chrono() {
    assert_eq!(TimeDelta::minutes(10), TimeDelta::seconds(600));
    assert_eq!(TimeDelta::hours(1), TimeDelta::minutes(60));
    assert_eq!(TimeDelta::seconds(1), TimeDelta::microseconds(1_000_000));
    let t = Timestamp::from_unix_parts(1_700_000_000, 5).unwrap();
    assert_eq!(t.add(TimeDelta::hours(1)).unix_seconds(), 1_700_003_600);
    assert_eq!(MessageTimestamp::from(t).as_datetime(), t);
}
