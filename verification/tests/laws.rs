use bytes::BytesMut;
use neo4rs_bolt::types::{BoltDuration, BoltMap, BoltString, BoltType};
use neo4rs_bolt::Version;

#[test]
fn put_then_get_reads_the_value() {
    let mut m = BoltMap::new();
    m.put(BoltString::from("a"), BoltType::from(1i64));
    assert_eq!(m.get_value("a"), Some(&BoltType::from(1i64)));
    m.put(BoltString::from("a"), BoltType::from(2i64));
    assert_eq!(m.get_value("a"), Some(&BoltType::from(2i64)));
}

#[test]
fn put_keeps_other_keys() {
    let mut m = BoltMap::new();
    m.put(BoltString::from("a"), BoltType::from(1i64));
    m.put(BoltString::from("b"), BoltType::from(true));
    m.put(BoltString::from("a"), BoltType::from(3i64));
    assert_eq!(m.get_value("b"), Some(&BoltType::from(true)));
    assert_eq!(m.get_value("c"), None);
}

#[test]
fn put_len_counts_new_keys_only() {
    let mut m = BoltMap::new();
    m.put(BoltString::from("x"), BoltType::from(1i64));
    assert_eq!(m.len(), 1);
    m.put(BoltString::from("x"), BoltType::from(2i64));
    assert_eq!(m.len(), 1);
    m.put(BoltString::from("y"), BoltType::from(2i64));
    assert_eq!(m.len(), 2);
}

#[test]
fn integer_and_boolean_round_trip() {
    for i in [i64::MIN, -17, -1, 0, 1, 127, 128, i64::MAX] {
        assert_eq!(BoltType::from(i).to::<i64>().unwrap(), i);
    }
    assert!(BoltType::from(true).to::<bool>().unwrap());
    assert!(!BoltType::from(false).to::<bool>().unwrap());
}

#[test]
fn std_duration_round_trip() {
    let d = std::time::Duration::new(42, 1337);
    let b = BoltDuration::from(d);
    assert_eq!(BoltType::Duration(b).to::<std::time::Duration>().unwrap(), d);
}

#[test]
fn proposed_versions_are_accepted() {
    let mut bytes = BytesMut::new();
    Version::add_supported_versions(&mut bytes);
    for slot in 0..4 {
        let answer = [bytes[4 * slot], bytes[4 * slot + 1], bytes[4 * slot + 2], bytes[4 * slot + 3]];
        assert!(Version::parse(answer).is_ok());
    }
}

use neo4rs_bolt::temporal::{LocalDateTime, OffsetDateTime, TimeOfDay};
use neo4rs_bolt::types::{BoltDateTime, BoltLocalDateTime, BoltLocalTime};

#[test]
fn time_of_day_round_trip() {
    let t = TimeOfDay { seconds: 25_689, nanoseconds: 100 };
    assert_eq!(BoltLocalTime::from_time(t).to_chrono(), t);
    // a leap second does not come back as itself
    let leap = TimeOfDay { seconds: 59, nanoseconds: 1_500_000_000 };
    assert_eq!(BoltLocalTime::from_time(leap).to_chrono(), TimeOfDay { seconds: 60, nanoseconds: 500_000_000 });
}

#[test]
fn local_date_time_round_trip() {
    let l = LocalDateTime { seconds: 1_435_741_199, nanoseconds: 1_123_000_000 };
    assert_eq!(BoltLocalDateTime::from_local(l).try_to_chrono().unwrap(), l);
}

#[test]
fn offset_date_time_round_trip() {
    let o = OffsetDateTime { seconds: 1_435_146_635, nanoseconds: 0, offset_seconds: 3600 };
    assert_eq!(BoltDateTime::from_offset(o).try_to_chrono().unwrap(), o);
}
