use neo4rs_bolt::convert::FromBolt;
use neo4rs_bolt::de::DeError;
use neo4rs_bolt::extract::{Id, Indices, Labels, Nodes};
use neo4rs_bolt::types::{BoltDuration, BoltInteger, BoltList, BoltMap, BoltNode, BoltPath, BoltType, BoltUnboundedRelation};
use std::time::Duration;

fn one_entry_map(key: &str, value: BoltType) -> BoltMap {
    let mut map = BoltMap::new();
    map.put(key.into(), value);
    map
}

#[test]
fn serde_list() {
    let list = BoltType::from(vec![42_i64, 1337]);
    let actual = list.to::<Vec<i64>>().unwrap();
    assert_eq!(actual, vec![42_i64, 1337]);
}

#[test]
fn serde_type_convert() {
    let i = BoltType::from(42);
    assert_eq!(i.to::<i8>().unwrap(), 42);
}

#[test]
fn serde_type_convert_error() {
    let i = BoltType::from(1337);
    assert_eq!(
        i.to::<i8>().unwrap_err().to_string(),
        "Could not convert the integer `1337` to the target type i8"
    );
}

#[test]
fn deser_list() {
    let list = BoltType::from(vec![42_i64, 1337]);
    let actual = list.to::<Vec<i64>>().unwrap();
    assert_eq!(actual, vec![42_i64, 1337]);
}

#[test]
fn deser_type_convert() {
    let i = BoltType::from(42);
    assert_eq!(i.to::<i8>().unwrap(), 42);
}

#[test]
fn deser_type_convert_error() {
    let i = BoltType::from(1337);
    assert_eq!(
        i.to::<i8>().unwrap_err().to_string(),
        "Could not convert the integer `1337` to the target type i8"
    );
}

#[test]
fn typ_list() {
    let list = BoltType::from(vec![42_i64, 1337]);
    let actual = list.to::<Vec<i64>>().unwrap();
    assert_eq!(actual, vec![42_i64, 1337]);
}

#[test]
fn typ_type_convert() {
    let i = BoltType::from(42);
    assert_eq!(i.to::<i8>().unwrap(), 42);
}

#[test]
fn typ_type_convert_error() {
    let i = BoltType::from(1337);
    assert_eq!(
        i.to::<i8>().unwrap_err().to_string(),
        "Could not convert the integer `1337` to the target type i8"
    );
}

#[test]
fn duration() {
    let duration = Duration::new(42, 1337);
    let bolt = BoltType::Duration(BoltDuration::from(duration));
    let actual = bolt.to::<std::time::Duration>().unwrap();
    assert_eq!(actual, duration);
    let actual = bolt.to::<time::Duration>().unwrap();
    assert_eq!(actual, duration);
}

fn person(id: i64, name: &str, age: i64) -> BoltNode {
    let mut properties = BoltMap::new();
    properties.put("name".into(), name.into());
    properties.put("age".into(), age.into());
    BoltNode::new(BoltInteger::new(id), BoltList::from(vec![BoltType::from("Person")]), properties)
}

fn test_path() -> BoltPath {
    let alice = person(42, "Alice", 42);
    let bob = person(1337, "Bob", 84);
    let rel = BoltUnboundedRelation::new(BoltInteger::new(84), "KNOWS".into(), one_entry_map("since", 2017.into()));
    BoltPath {
        nodes: BoltList::from(vec![BoltType::Node(alice), BoltType::Node(bob)]),
        rels: BoltList::from(vec![BoltType::UnboundedRelation(rel)]),
        ids: BoltList::from(vec![BoltType::from(1), BoltType::from(1)]),
    }
}

fn test_extract_path<T: FromBolt + std::fmt::Debug + PartialEq>(expected: T) {
    let path = test_path();
    let actual = path.to::<T>().unwrap();
    assert_eq!(actual, expected);
}

#[test]
fn path_indices() {
    test_extract_path(Indices(vec![1, 1]));
}

#[test]
fn converting_out_of_range_and_wrong_types() {
    assert_eq!(BoltType::from(-1).to::<u8>().unwrap_err().to_string(), "Could not convert the integer `-1` to the target type u8");
    assert_eq!(BoltType::from(300).to::<u8>().unwrap_err().to_string(), "Could not convert the integer `300` to the target type u8");
    assert_eq!(BoltType::from(true).to::<i64>().unwrap_err().to_string(), "Invalid type: boolean `true`, expected i64");
    assert_eq!(BoltType::from("x").to::<bool>().unwrap_err().to_string(), "Invalid type: string \"x\", expected a boolean");
    assert_eq!(BoltType::from(7).to::<String>().unwrap_err().to_string(), "Invalid type: integer `7`, expected a string");
    assert_eq!(BoltType::from(7).to::<Vec<i64>>().unwrap_err().to_string(), "Invalid type: integer `7`, expected a sequence");
    assert_eq!(BoltType::from(true).to::<bool>().unwrap(), true);
    assert_eq!(BoltType::from("x").to::<String>().unwrap(), "x".to_owned());
}

#[test]
fn converting_options_and_lists() {
    let null = BoltType::Null(neo4rs_bolt::types::BoltNull);
    assert_eq!(null.to::<Option<i64>>().unwrap(), None);
    assert_eq!(BoltType::from(5).to::<Option<i64>>().unwrap(), Some(5));
    let mixed = BoltType::List(BoltList::from(vec![BoltType::from(1), BoltType::from("two")]));
    assert_eq!(mixed.to::<Vec<i64>>().unwrap_err().to_string(), "Invalid type: string \"two\", expected i64");
    let list = BoltType::from(vec![1_i64, 2, 300]);
    assert_eq!(list.to::<Vec<u8>>().unwrap_err().to_string(), "Could not convert the integer `300` to the target type u8");
}

#[test]
fn converting_durations() {
    let bolt = BoltType::Duration(BoltDuration::new(1.into(), 1.into(), 1.into(), 5.into()));
    let d = bolt.to::<Duration>().unwrap();
    assert_eq!(d, Duration::new(2_629_800 + 86_400 + 1, 5));
    let negative = BoltType::Duration(BoltDuration::new(0.into(), 0.into(), (-3).into(), 0.into()));
    assert_eq!(negative.to::<Duration>().unwrap_err().to_string(), "Invalid value: integer `-3`, expected u64");
    let t = negative.to::<time::Duration>().unwrap();
    assert_eq!(t.whole_seconds(), -3);
    let mixed = BoltType::Duration(BoltDuration::new(0.into(), 0.into(), 2.into(), (-5).into()));
    let t = mixed.to::<time::Duration>().unwrap();
    assert_eq!((t.whole_seconds(), t.subsec_nanoseconds()), (1, 999_999_995));
    assert_eq!(BoltType::from(1).to::<Duration>().unwrap_err().to_string(), "Invalid type: integer `1`, expected struct Duration");
}

#[test]
fn extracting_parts_of_elements() {
    let node = person(7, "Ann", 30);
    assert_eq!(node.to::<Id>().unwrap().0, 7);
    assert_eq!(node.to::<Labels>().unwrap().0, vec!["Person".to_owned()]);
    assert_eq!(node.get::<i64>("age"), Some(30));
    assert_eq!(node.get::<i64>("name"), None);
    assert_eq!(node.get::<i64>("missing"), None);
    let path = test_path();
    assert_eq!(path.to::<Nodes<Id>>().unwrap().0.iter().map(|i| i.0).collect::<Vec<_>>(), vec![42, 1337]);
    let err: DeError = path.to::<Id>().unwrap_err();
    assert_eq!(err.to_string(), "Missing field `id`");
    let map = one_entry_map("a", 1.into());
    assert_eq!(map.get::<i64>("a").unwrap(), 1);
    assert_eq!(map.get::<i64>("b").unwrap_err().to_string(), "The property does not exist");
}
