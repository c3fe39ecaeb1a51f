use neo4rs_bolt::de::{DeError, Unexpected};
use neo4rs_bolt::extract::{Keys, Offset};
use neo4rs_bolt::temporal::{CivilDate, TimeOfDay};
use neo4rs_bolt::types::{BoltInteger, BoltList, BoltLocalTime, BoltMap, BoltNode, BoltString, BoltTime, BoltType};
use std::collections::HashSet;

fn node_with_keys(keys: &[&str]) -> BoltType {
    let mut properties = BoltMap::new();
    for k in keys {
        properties.put(BoltString::from(*k), BoltType::from(1i64));
    }
    BoltType::Node(BoltNode::new(BoltInteger::new(1), BoltList::new(), properties))
}

#[test]
fn keys_default_to_a_set_of_strings() {
    let keys: Keys = node_with_keys(&["name", "age"]).to().unwrap();
    let expected: HashSet<String> = ["name".to_string(), "age".to_string()].into_iter().collect();
    assert_eq!(keys.0, expected);
    let list = BoltType::List(BoltList::from(vec![BoltType::from("a"), BoltType::from("a"), BoltType::from("b")]));
    let set: HashSet<String> = list.to().unwrap();
    assert_eq!(set.len(), 2);
    assert!(matches!(BoltType::from(1i64).to::<HashSet<String>>(), Err(DeError::InvalidType { .. })));
}

#[test]
fn dates_read_back_as_themselves() {
    for (year, month, day) in [(2010, 1, 1), (1910, 1, 1), (1969, 12, 31), (2024, 2, 29), (-44, 3, 15)] {
        let d = CivilDate { year, month, day };
        let b = neo4rs_bolt::types::BoltDate::from_date(d);
        assert_eq!(b.try_to_chrono().unwrap(), d);
    }
}

#[test]
fn offsets_read_from_integers() {
    assert_eq!(BoltType::from(3600i64).to::<Offset>().unwrap(), Offset(3600));
    assert_eq!(BoltType::from(-86_399i64).to::<Offset>().unwrap(), Offset(-86_399));
    assert!(matches!(
        BoltType::from(86_400i64).to::<Offset>(),
        Err(DeError::InvalidValue { received: Unexpected::Signed(86_400), expected })
            if expected == "an offset value as i32 within [-86_400, 86_400]"
    ));
    assert!(matches!(
        BoltType::from(1i64 << 40).to::<Offset>(),
        Err(DeError::IntegerOutOfBounds(1_099_511_627_776, "i32"))
    ));
    assert!(matches!(BoltType::from("x").to::<Offset>(), Err(DeError::InvalidType { .. })));
}

#[test]
fn times_read_as_time_and_offset() {
    let time = BoltType::Time(BoltTime::from_time(TimeOfDay { seconds: 25_689, nanoseconds: 100 }, 7200));
    let (t, o) = time.to::<(TimeOfDay, Option<Offset>)>().unwrap();
    assert_eq!(t, TimeOfDay { seconds: 25_689, nanoseconds: 100 });
    assert_eq!(o, Some(Offset(7200)));
    let (_, o) = time.to::<(TimeOfDay, Offset)>().unwrap();
    assert_eq!(o, Offset(7200));
    let utc = BoltType::Time(BoltTime::from_time(TimeOfDay { seconds: 1, nanoseconds: 0 }, 0));
    assert_eq!(utc.to::<(TimeOfDay, Option<Offset>)>().unwrap().1, None);
    assert!(matches!(utc.to::<(TimeOfDay, Offset)>(), Err(DeError::InvalidType { received: Unexpected::OptionValue, .. })));
    let local = BoltType::LocalTime(BoltLocalTime::from_time(TimeOfDay { seconds: 1, nanoseconds: 2 }));
    assert_eq!(local.to::<(TimeOfDay, Option<Offset>)>().unwrap(), (TimeOfDay { seconds: 1, nanoseconds: 2 }, None));
}
