use neo4rs_bolt::builder::{SetOnce, SetOnceError};

#[test]
fn set_once_takes_one_value() {
    let mut slot: SetOnce<i32> = SetOnce::default();
    assert!(!slot.is_set());
    assert_eq!(*slot.insert_with(|| 1).unwrap(), 1);
    assert!(slot.is_set());
    assert_eq!(slot.insert_with(|| 2).unwrap_err(), SetOnceError);
    assert_eq!(*slot.get_or_insert_with(|| 3), 1);
    assert_eq!(slot.take(), Some(1));
    assert!(!slot.is_set());
    assert_eq!(slot.take(), None);
}

#[test]
fn set_once_reads_through_fallible_closures() {
    let mut slot: SetOnce<i32> = SetOnce::Empty;
    let failed: Result<Result<&mut i32, SetOnceError>, &str> = slot.try_insert_with(|| Err("no"));
    assert_eq!(failed.unwrap_err(), "no");
    assert!(!slot.is_set());
    *slot.try_insert_with::<&str>(|| Ok(5)).unwrap().unwrap() += 1;
    assert_eq!(slot.try_insert_with::<&str>(|| Ok(7)).unwrap().unwrap_err(), SetOnceError);
    assert_eq!(slot.or_else(|| 0), 6);
    let empty: SetOnce<i32> = SetOnce::Empty;
    assert_eq!(empty.or_else(|| 9), 9);
    assert_eq!(SetOnce::Filled(4).ok_or_else(|| "missing"), Ok(4));
    assert_eq!(SetOnce::<i32>::Empty.ok_or_else(|| "missing"), Err("missing"));
}

use neo4rs_bolt::builder::{BoltNodeBuilder, BoltPathBuilder, BoltRelationBuilder, BoltUnboundedRelationBuilder};
use neo4rs_bolt::de::DeError;
use neo4rs_bolt::types::{BoltInteger, BoltList, BoltMap, BoltString, BoltType};

#[test]
fn node_builder_collects_fields() {
    let mut b = BoltNodeBuilder::default();
    b.id(|| Ok(BoltInteger::new(42))).unwrap();
    b.labels(|| Ok(BoltList::from(vec![BoltType::from("Person")]))).unwrap();
    b.insert(|| Ok((BoltString::from("name"), BoltType::from("Alice")))).unwrap();
    b.insert(|| Ok((BoltString::from("age"), BoltType::from(30i64)))).unwrap();
    b.insert(|| Ok((BoltString::from("age"), BoltType::from(31i64)))).unwrap();
    let node = b.build().unwrap();
    assert_eq!(node.id, BoltInteger::new(42));
    assert_eq!(node.labels.len(), 1);
    assert_eq!(node.properties.len(), 2);
    assert_eq!(node.properties.get_value("age"), Some(&BoltType::from(31i64)));
}

#[test]
fn node_builder_reports_missing_fields() {
    let b = BoltNodeBuilder::default();
    assert!(matches!(b.build(), Err(DeError::MissingField { field: "id" })));
    let mut b = BoltNodeBuilder::default();
    b.id(|| Ok(BoltInteger::new(1))).unwrap();
    assert!(matches!(b.build(), Err(DeError::MissingField { field: "labels" })));
    let mut b = BoltNodeBuilder::default();
    b.id(|| Ok(BoltInteger::new(1))).unwrap();
    b.labels(|| Ok(BoltList::new())).unwrap();
    let node = b.build().unwrap();
    assert!(node.properties.is_empty());
}

#[test]
fn node_builder_repeated_fields() {
    let mut b = BoltNodeBuilder::default();
    b.id(|| Ok(BoltInteger::new(1))).unwrap();
    // a second id is refused and the first kept
    assert!(matches!(b.id(|| Ok(BoltInteger::new(2))), Err(DeError::DuplicateField { field: "id" })));
    b.labels(|| Ok(BoltList::new())).unwrap();
    // a second list of labels is refused
    assert!(matches!(b.labels(|| Ok(BoltList::new())), Err(DeError::DuplicateField { field: "labels" })));
    b.properties(|| Ok(BoltMap::new())).unwrap();
    assert!(matches!(b.properties(|| Ok(BoltMap::new())), Err(DeError::DuplicateField { field: "properties" })));
    assert_eq!(b.build().unwrap().id, BoltInteger::new(1));
}

#[test]
fn node_builder_read_errors() {
    let mut b = BoltNodeBuilder::default();
    // a failed read of the id is passed on
    assert!(matches!(b.id(|| Err(DeError::NoSuchProperty)), Err(DeError::NoSuchProperty)));
    // a failed read of the labels is passed on
    assert!(matches!(b.labels(|| Err(DeError::NoSuchProperty)), Err(DeError::NoSuchProperty)));
    assert!(matches!(b.insert(|| Err(DeError::PropertyMissingButRequired)), Err(DeError::PropertyMissingButRequired)));
    assert!(matches!(b.build(), Err(DeError::MissingField { field: "id" })));
}

#[test]
fn relation_builder_collects_fields() {
    let mut b = BoltRelationBuilder::default();
    b.id(|| Ok(BoltInteger::new(7))).unwrap();
    b.start_node_id(|| Ok(BoltInteger::new(1))).unwrap();
    assert!(matches!(b.clone().build(), Err(DeError::MissingField { field: "end_node_id" })));
    b.end_node_id(|| Ok(BoltInteger::new(2))).unwrap();
    assert!(matches!(b.clone().build(), Err(DeError::MissingField { field: "type" })));
    b.typ(|| Ok(BoltString::from("KNOWS"))).unwrap();
    b.insert(|| Ok((BoltString::from("since"), BoltType::from(2020i64)))).unwrap();
    let rel = b.build().unwrap();
    assert_eq!(rel.id, BoltInteger::new(7));
    assert_eq!(rel.start_node_id, BoltInteger::new(1));
    assert_eq!(rel.end_node_id, BoltInteger::new(2));
    assert_eq!(rel.typ, BoltString::from("KNOWS"));
    assert_eq!(rel.properties.get_value("since"), Some(&BoltType::from(2020i64)));
    let mut b = BoltRelationBuilder::default();
    b.id(|| Ok(BoltInteger::new(7))).unwrap();
    assert!(matches!(b.build(), Err(DeError::MissingField { field: "start_node_id" })));
}

#[test]
fn unbounded_relation_builder_collects_fields() {
    let mut b = BoltUnboundedRelationBuilder::default();
    assert!(matches!(b.clone().build(), Err(DeError::MissingField { field: "id" })));
    b.id(|| Ok(BoltInteger::new(3))).unwrap();
    assert!(matches!(b.clone().build(), Err(DeError::MissingField { field: "type" })));
    b.typ(|| Ok(BoltString::from("LIKES"))).unwrap();
    let rel = b.build().unwrap();
    assert_eq!(rel.id, BoltInteger::new(3));
    assert_eq!(rel.typ, BoltString::from("LIKES"));
    assert!(rel.properties.is_empty());
}

#[test]
fn path_builder_collects_fields() {
    let mut b = BoltPathBuilder::default();
    assert!(matches!(b.clone().build(), Err(DeError::MissingField { field: "nodes" })));
    b.nodes(|| Ok(BoltList::new())).unwrap();
    assert!(matches!(b.clone().build(), Err(DeError::MissingField { field: "relations" })));
    b.relations(|| Ok(BoltList::new())).unwrap();
    assert!(matches!(b.clone().build(), Err(DeError::MissingField { field: "indices" })));
    b.indices(|| Ok(BoltList::from(vec![BoltType::from(1i64), BoltType::from(-1i64)]))).unwrap();
    assert!(matches!(b.indices(|| Ok(BoltList::new())), Err(DeError::DuplicateField { field: "indices" })));
    let path = b.build().unwrap();
    assert_eq!(path.ids.len(), 2);
    assert_eq!(path.nodes.len(), 0);
}

#[test]
fn builders_read_fields_by_name() {
    let id = || Ok(BoltInteger::new(7));
    let labels = || Ok(BoltList::new());
    let value = || Ok(BoltType::from("x"));
    let mut b = BoltNodeBuilder::default();
    b.read_field("42.<id>", id, labels, value).unwrap();
    b.read_field("42.<labels>", id, labels, value).unwrap();
    b.read_field("name", id, labels, value).unwrap();
    assert!(matches!(b.read_field("42.<id>", id, labels, value), Err(DeError::DuplicateField { field: "id" })));
    let node = b.build().unwrap();
    assert_eq!(node.id, BoltInteger::new(7));
    assert_eq!(node.properties.get_value("name"), Some(&BoltType::from("x")));

    let kind = || Ok(BoltString::from("KNOWS"));
    let mut b = BoltRelationBuilder::default();
    for key in ["42.<id>", "42.<start_node_id>", "42.<end_node_id>", "42.<type>", "since"] {
        b.read_field(key, id, kind, value).unwrap();
    }
    let rel = b.build().unwrap();
    assert_eq!(rel.typ, BoltString::from("KNOWS"));
    assert_eq!(rel.properties.len(), 1);

    let mut b = BoltUnboundedRelationBuilder::default();
    b.read_field("42.<id>", id, kind, value).unwrap();
    b.read_field("42.<type>", id, kind, value).unwrap();
    assert!(matches!(b.read_field("42.<type>", id, kind, value), Err(DeError::DuplicateField { field: "type" })));
    assert!(b.build().is_ok());

    let mut b = BoltPathBuilder::default();
    for key in ["nodes", "relationships", "indices"] {
        b.read_field(key, labels).unwrap();
    }
    assert!(matches!(b.read_field("relationships", labels), Err(DeError::DuplicateField { field: "relations" })));
    assert!(matches!(b.read_field("other", labels), Err(DeError::UnknownField { field, expected })
        if field == "other" && expected == ["nodes", "relationships", "indices"]));
    assert!(b.build().is_ok());
}
