use bytes::{Buf, Bytes};
use neo4rs_bolt::types::binary::{LARGE as BYTES_LARGE, MEDIUM as BYTES_MEDIUM, SMALL as BYTES_SMALL};
use neo4rs_bolt::types::boolean::{FALSE, TRUE};
use neo4rs_bolt::types::integer::{INT_16, INT_32, INT_64, INT_8};
use neo4rs_bolt::types::list::TINY as LIST_TINY;
use neo4rs_bolt::types::map::{LARGE as MAP_LARGE, MEDIUM as MAP_MEDIUM, SMALL as MAP_SMALL, TINY as MAP_TINY};
use neo4rs_bolt::types::string::{LARGE, MEDIUM, SMALL, TINY};
use neo4rs_bolt::types::{
    BoltBoolean, BoltBytes, BoltDuration, BoltFloat, BoltInteger, BoltList, BoltMap, BoltNode, BoltNull, BoltPath,
    BoltPoint2D, BoltPoint3D, BoltRelation, BoltString, BoltType, BoltUnboundedRelation,
};
use neo4rs_bolt::Version;

fn one_entry_map(key: &str, value: &str) -> BoltMap {
    let mut map = BoltMap::new();
    map.put(key.into(), value.into());
    map
}

#[test]
fn should_serialize_small_bytes() {
    let bolt_bytes = BoltBytes::new(Bytes::from_static("hello".as_bytes()));
    let serialized: Bytes = bolt_bytes.into_bytes(Version::V4_1).unwrap();
    assert_eq!(serialized, Bytes::from_static(&[BYTES_SMALL, 0x05, b'h', b'e', b'l', b'l', b'o']));
    let mut input = serialized;
    let deserialized: BoltBytes = BoltBytes::parse(Version::V4_1, &mut input).unwrap();
    assert_eq!(String::from_utf8(deserialized.value.to_vec()).unwrap(), "hello".to_owned());
}

#[test]
fn should_serialize_medium_bytes() {
    let raw_bytes = Bytes::copy_from_slice(&vec![0; 256]);
    let bolt_bytes = BoltBytes::new(raw_bytes.clone());
    let serialized: Bytes = bolt_bytes.into_bytes(Version::V4_1).unwrap();
    assert_eq!(serialized[0], BYTES_MEDIUM);
    assert_eq!(u16::from_be_bytes(serialized[1..3].try_into().unwrap()), 256);
    let mut input = serialized;
    let deserialized: BoltBytes = BoltBytes::parse(Version::V4_1, &mut input).unwrap();
    assert_eq!(deserialized.value, raw_bytes);
}

#[test]
fn should_serialize_large_bytes() {
    let raw_bytes = Bytes::copy_from_slice(&vec![0; 65_537]);
    let bolt_bytes = BoltBytes::new(raw_bytes.clone());
    let serialized: Bytes = bolt_bytes.into_bytes(Version::V4_1).unwrap();
    assert_eq!(serialized[0], BYTES_LARGE);
    assert_eq!(u32::from_be_bytes(serialized[1..5].try_into().unwrap()), 65_537);
    let mut input = serialized;
    let deserialized: BoltBytes = BoltBytes::parse(Version::V4_1, &mut input).unwrap();
    assert_eq!(deserialized.value, raw_bytes);
}

#[test]
fn should_serialize_boolean() {
    let b: Bytes = BoltBoolean::new(true).into_bytes(Version::V4_1).unwrap();
    assert_eq!(&b[..], &[0xC3]);
    let b: Bytes = BoltBoolean::new(false).into_bytes(Version::V4_1).unwrap();
    assert_eq!(&b[..], &[0xC2]);
}

#[test]
fn should_deserialize_boolean() {
    let mut b = Bytes::from_static(&[TRUE]);
    let bolt_boolean: BoltBoolean = BoltBoolean::parse(Version::V4_1, &mut b).unwrap();
    assert!(bolt_boolean.value);
    let mut b = Bytes::from_static(&[FALSE]);
    let bolt_boolean: BoltBoolean = BoltBoolean::parse(Version::V4_1, &mut b).unwrap();
    assert!(!bolt_boolean.value);
}

#[test]
fn should_serialize_a_duration() {
    let duration = BoltDuration::new(12.into(), 2.into(), 30.into(), 700.into());
    let bytes: Bytes = duration.into_bytes(Version::V4_1).unwrap();
    assert_eq!(bytes, Bytes::from_static(&[0xB4, 0x45, 0x0C, 0x02, 0x1E, 0xC9, 0x02, 0xBC]));
}

#[test]
fn should_deserialize_a_duration() {
    let mut bytes = Bytes::from_static(&[0xB4, 0x45, 0x0C, 0x02, 0x1E, 0xC9, 0x02, 0xBC]);
    let duration: BoltDuration = BoltDuration::parse(Version::V4_1, &mut bytes).unwrap();
    assert_eq!(duration.months.value, 12);
    assert_eq!(duration.days.value, 2);
    assert_eq!(duration.seconds.value, 30);
    assert_eq!(duration.nanoseconds.value, 700);
}

#[test]
fn should_serialize_float() {
    let b: Bytes = BoltFloat::from_bits(1.23f64.to_bits()).into_bytes(Version::V4_1).unwrap();
    assert_eq!(&b[..], &[0xC1, 0x3F, 0xF3, 0xAE, 0x14, 0x7A, 0xE1, 0x47, 0xAE]);
    let b: Bytes = BoltFloat::from_bits((-1.23f64).to_bits()).into_bytes(Version::V4_1).unwrap();
    assert_eq!(&b[..], &[0xC1, 0xBF, 0xF3, 0xAE, 0x14, 0x7A, 0xE1, 0x47, 0xAE]);
}

#[test]
fn should_deserialize_float() {
    let mut input = Bytes::from_static(&[0xC1, 0x3F, 0xF3, 0xAE, 0x14, 0x7A, 0xE1, 0x47, 0xAE]);
    let bolt_float: BoltFloat = BoltFloat::parse(Version::V4_1, &mut input).unwrap();
    assert_eq!(f64::from_bits(bolt_float.bits), 1.23);
    let mut input = Bytes::from_static(&[0xC1, 0xBF, 0xF3, 0xAE, 0x14, 0x7A, 0xE1, 0x47, 0xAE]);
    let bolt_float: BoltFloat = BoltFloat::parse(Version::V4_1, &mut input).unwrap();
    assert_eq!(f64::from_bits(bolt_float.bits), -1.23);
}

#[test]
fn should_serialize_integer() {
    let b: Bytes = BoltInteger::new(42).into_bytes(Version::V4_1).unwrap();
    assert_eq!(&b[..], &[0x2A]);
    let b: Bytes = BoltInteger::new(-127).into_bytes(Version::V4_1).unwrap();
    assert_eq!(&b[..], &[INT_8, 0x81]);
    let b: Bytes = BoltInteger::new(129).into_bytes(Version::V4_1).unwrap();
    assert_eq!(&b[..], &[INT_16, 0x00, 0x81]);
    let b: Bytes = BoltInteger::new(32_768).into_bytes(Version::V4_1).unwrap();
    assert_eq!(&b[..], &[INT_32, 0x00, 0x00, 0x80, 0x00]);
    let b: Bytes = BoltInteger::new(2_147_483_648).into_bytes(Version::V4_1).unwrap();
    assert_eq!(&b[..], &[INT_64, 0x00, 0x00, 0x00, 0x00, 0x80, 0x00, 0x00, 0x00]);
}

#[test]
fn should_deserialize_integer() {
    let mut b = Bytes::from_static(&[0x2A]);
    assert_eq!(BoltInteger::parse(Version::V4_1, &mut b).unwrap().value, 42);
    let mut b = Bytes::from_static(&[INT_8, 0x81]);
    assert_eq!(BoltInteger::parse(Version::V4_1, &mut b).unwrap().value, -127);
    let mut b = Bytes::from_static(&[INT_16, 0x00, 0x81]);
    assert_eq!(BoltInteger::parse(Version::V4_1, &mut b).unwrap().value, 129);
    let mut b = Bytes::from_static(&[INT_32, 0x00, 0x00, 0x80, 0x00]);
    assert_eq!(BoltInteger::parse(Version::V4_1, &mut b).unwrap().value, 32_768);
    let mut b = Bytes::from_static(&[INT_64, 0x00, 0x00, 0x00, 0x00, 0x80, 0x00, 0x00, 0x00]);
    assert_eq!(BoltInteger::parse(Version::V4_1, &mut b).unwrap().value, 2_147_483_648);
}

#[test]
fn should_serialize_empty_list() {
    let list = BoltList::new();
    let b: Bytes = list.into_bytes(Version::V4_1).unwrap();
    assert_eq!(&b[..], Bytes::from_static(&[LIST_TINY]));
}

#[test]
fn should_serialize_list() {
    let mut list = BoltList::new();
    list.push("a".into());
    list.push(1.into());
    let b: Bytes = list.into_bytes(Version::V4_1).unwrap();
    assert_eq!(&b[..], Bytes::from_static(&[0x92, 0x81, 0x61, 0x01]));
}

#[test]
fn should_deserialize_list() {
    let mut b = Bytes::from_static(&[0x92, 0x81, 0x61, 0x01]);
    let bolt_list: BoltList = BoltList::parse(Version::V4_1, &mut b).unwrap();
    assert_eq!(bolt_list.len(), 2);
    match bolt_list.get(0).unwrap() {
        BoltType::String(s) => assert_eq!(s.value, "a"),
        _ => unreachable!("error deserialiisation of string in list"),
    }
    match bolt_list.get(1).unwrap() {
        BoltType::Integer(s) => assert_eq!(s.value, 1),
        _ => unreachable!("error deserialiisation integer in list"),
    }
}

#[test]
fn should_serialize_empty_map() {
    let map = BoltMap::default();
    let b: Bytes = map.into_bytes(Version::V4_1).unwrap();
    assert_eq!(&b[..], Bytes::from_static(&[MAP_TINY]));
}

#[test]
fn should_serialize_map_of_strings() {
    let mut map = BoltMap::default();
    map.put("a".into(), "b".into());
    let b: Bytes = map.into_bytes(Version::V4_1).unwrap();
    assert_eq!(&b[..], Bytes::from_static(&[0xA1, 0x81, 0x61, 0x81, 0x62]));
}

#[test]
fn should_deserialize_map_of_strings() {
    let mut input = Bytes::from_static(&[0xA1, 0x81, 0x61, 0x81, 0x62]);
    let map: BoltMap = BoltMap::parse(Version::V4_1, &mut input).unwrap();
    assert_eq!(map.value.len(), 1);
}

fn numbered_map(last: usize) -> BoltMap {
    let mut map = BoltMap::default();
    for i in 0..=last {
        map.put(i.to_string().into(), BoltType::from(i.to_string().as_str()));
    }
    map
}

#[test]
fn should_deserialize_small_map() {
    let map = numbered_map(16);
    let mut bytes = map.clone().into_bytes(Version::V4_1).unwrap();
    assert_eq!(bytes[0], MAP_SMALL);
    let deserialized_map: BoltMap = BoltMap::parse(Version::V4_1, &mut bytes).unwrap();
    assert_eq!(map, deserialized_map);
}

#[test]
fn should_deserialize_medium_map() {
    let map = numbered_map(256);
    let mut bytes = map.clone().into_bytes(Version::V4_1).unwrap();
    assert_eq!(bytes[0], MAP_MEDIUM);
    let deserialized_map: BoltMap = BoltMap::parse(Version::V4_1, &mut bytes).unwrap();
    assert_eq!(map, deserialized_map);
}

#[test]
fn should_deserialize_large_map() {
    let map = numbered_map(65_536);
    let mut bytes = map.clone().into_bytes(Version::V4_1).unwrap();
    assert_eq!(bytes[0], MAP_LARGE);
    let deserialized_map: BoltMap = BoltMap::parse(Version::V4_1, &mut bytes).unwrap();
    assert_eq!(map, deserialized_map);
}

const NODE_BYTES: [u8; 22] = [
    0xB3, 0x4E, 0x13, 0x91, 0x86, 0x50, 0x65, 0x72, 0x73, 0x6F, 0x6E, 0xA1, 0x84, 0x6E, 0x61, 0x6D, 0x65, 0x84,
    0x4D, 0x61, 0x72, 0x6B,
];

#[test]
fn should_deserialize_a_node() {
    let mut input = Bytes::copy_from_slice(&NODE_BYTES);
    let node: BoltNode = BoltNode::parse(Version::V4_1, &mut input).unwrap();
    assert_eq!(node.id, BoltInteger::new(19));
    assert_eq!(node.labels, vec!["Person".into()].into());
    assert_eq!(node.properties, one_entry_map("name", "Mark"));
}

#[test]
fn should_serialize_a_node() {
    let id = BoltInteger::new(19);
    let labels = vec!["Person".into()].into();
    let properties = one_entry_map("name", "Mark");
    let node = BoltNode { id, labels, properties };
    let bytes: Bytes = node.into_bytes(Version::V4_1).unwrap();
    assert_eq!(bytes, Bytes::copy_from_slice(&NODE_BYTES));
}

#[test]
fn should_serialize_null() {
    let b: Bytes = BoltNull.into_bytes(Version::V4_1).unwrap();
    assert_eq!(&b[..], &[0xC0]);
}

const PATH_BYTES: [u8; 73] = [
    0xB3, 0x50, 0x92, 0xB3, 0x4E, 0x2A, 0x91, 0x86, 0x50, 0x65, 0x72, 0x73, 0x6F, 0x6E, 0xA1, 0x84, 0x6E, 0x61,
    0x6D, 0x65, 0x84, 0x4D, 0x61, 0x72, 0x6B, 0xB3, 0x4E, 0x2B, 0x91, 0x86, 0x50, 0x65, 0x72, 0x73, 0x6F, 0x6E,
    0xA1, 0x84, 0x6E, 0x61, 0x6D, 0x65, 0x85, 0x4A, 0x61, 0x6D, 0x65, 0x73, 0x91, 0xB3, 0x72, 0x16, 0x86, 0x66,
    0x72, 0x69, 0x65, 0x6E, 0x64, 0xA1, 0x83, 0x6B, 0x65, 0x79, 0x85, 0x76, 0x61, 0x6C, 0x75, 0x65, 0x92, 0x16,
    0x2A,
];

fn person(id: i32, name: &str) -> BoltNode {
    BoltNode::new(id.into(), vec!["Person".into()].into(), one_entry_map("name", name))
}

fn friend() -> BoltUnboundedRelation {
    BoltUnboundedRelation::new(22.into(), "friend".into(), one_entry_map("key", "value"))
}

#[test]
fn should_serialize_a_path() {
    let path = BoltPath {
        nodes: vec![BoltType::Node(person(42, "Mark")), BoltType::Node(person(43, "James"))].into(),
        rels: vec![BoltType::UnboundedRelation(friend())].into(),
        ids: vec![22.into(), 42.into()].into(),
    };
    let bytes: Bytes = path.into_bytes(Version::V4_1).unwrap();
    assert_eq!(bytes, Bytes::copy_from_slice(&PATH_BYTES));
}

#[test]
fn should_deserialize_a_path() {
    let mut input = Bytes::copy_from_slice(&PATH_BYTES);
    let path: BoltPath = BoltPath::parse(Version::V4_1, &mut input).unwrap();
    let nodes = path.nodes();
    let rels = path.rels();
    let ids = path.ids();
    assert_eq!(nodes.len(), 2);
    assert_eq!(rels.len(), 1);
    assert_eq!(ids.len(), 2);
    assert_eq!(nodes, vec![person(42, "Mark"), person(43, "James")]);
    assert_eq!(rels, vec![friend()]);
    assert_eq!(ids, vec![22.into(), 42.into()]);
}

fn float(x: f64) -> BoltFloat {
    BoltFloat::from_bits(x.to_bits())
}

const POINT2D_BYTES: [u8; 21] = [
    0xB3, 0x58, 0x2A, 0xC1, 0x3F, 0xF0, 0x00, 0x00, 0x00, 0x00, 0x00, 0x00, 0xC1, 0x40, 0x00, 0x00, 0x00, 0x00,
    0x00, 0x00, 0x00,
];

const POINT3D_BYTES: [u8; 30] = [
    0xB4, 0x59, 0x2A, 0xC1, 0x3F, 0xF0, 0x00, 0x00, 0x00, 0x00, 0x00, 0x00, 0xC1, 0x40, 0x00, 0x00, 0x00, 0x00,
    0x00, 0x00, 0x00, 0xC1, 0x40, 0x08, 0x00, 0x00, 0x00, 0x00, 0x00, 0x00,
];

#[test]
fn point_should_serialize_2d_point() {
    let point = BoltPoint2D { sr_id: BoltInteger::new(42), x: float(1.0), y: float(2.0) };
    let bytes: Bytes = point.into_bytes(Version::V4_1).unwrap();
    assert_eq!(&bytes[..], Bytes::copy_from_slice(&POINT2D_BYTES));
}

#[test]
fn point_should_deserialize_2d_point() {
    let mut input = Bytes::copy_from_slice(&POINT2D_BYTES);
    let point: BoltPoint2D = BoltPoint2D::parse(Version::V4_1, &mut input).unwrap();
    assert_eq!(point.sr_id, BoltInteger::new(42));
    assert_eq!(point.x, float(1.0));
    assert_eq!(point.y, float(2.0));
}

#[test]
fn point_should_serialize_3d_point() {
    let point = BoltPoint3D { sr_id: BoltInteger::new(42), x: float(1.0), y: float(2.0), z: float(3.0) };
    let bytes: Bytes = point.into_bytes(Version::V4_1).unwrap();
    assert_eq!(&bytes[..], Bytes::copy_from_slice(&POINT3D_BYTES));
}

#[test]
fn point_should_deserialize_3d_point() {
    let mut input = Bytes::copy_from_slice(&POINT3D_BYTES);
    let point: BoltPoint3D = BoltPoint3D::parse(Version::V4_1, &mut input).unwrap();
    assert_eq!(point.sr_id, BoltInteger::new(42));
    assert_eq!(point.x, float(1.0));
    assert_eq!(point.y, float(2.0));
    assert_eq!(point.z, float(3.0));
}

#[test]
fn point2d_should_serialize_2d_point() {
    let point = BoltPoint2D { sr_id: BoltInteger::new(42), x: float(1.0), y: float(2.0) };
    let bytes: Bytes = point.into_bytes(Version::V4_1).unwrap();
    assert_eq!(bytes, Bytes::copy_from_slice(&POINT2D_BYTES));
}

#[test]
fn point2d_should_deserialize_2d_point() {
    let mut input = Bytes::copy_from_slice(&POINT2D_BYTES);
    let point: BoltPoint2D = BoltPoint2D::parse(Version::V4_1, &mut input).unwrap();
    assert_eq!(point.sr_id, BoltInteger::new(42));
    assert_eq!(point.x, float(1.0));
    assert_eq!(point.y, float(2.0));
}

#[test]
fn point3d_should_serialize_3d_point() {
    let point = BoltPoint3D { sr_id: BoltInteger::new(42), x: float(1.0), y: float(2.0), z: float(3.0) };
    let bytes: Bytes = point.into_bytes(Version::V4_1).unwrap();
    assert_eq!(bytes, Bytes::copy_from_slice(&POINT3D_BYTES));
}

#[test]
fn point3d_should_deserialize_3d_point() {
    let mut input = Bytes::copy_from_slice(&POINT3D_BYTES);
    let point: BoltPoint3D = BoltPoint3D::parse(Version::V4_1, &mut input).unwrap();
    assert_eq!(point.sr_id, BoltInteger::new(42));
    assert_eq!(point.x, float(1.0));
    assert_eq!(point.y, float(2.0));
    assert_eq!(point.z, float(3.0));
}

const RELATION_BYTES: [u8; 20] = [
    0xB5, 0x52, 0x2A, 0x01, 0x02, 0x83, 0x72, 0x65, 0x6C, 0xA1, 0x84, 0x6E, 0x61, 0x6D, 0x65, 0x84, 0x4D, 0x61,
    0x72, 0x6B,
];

const UNBOUNDED_BYTES: [u8; 18] = [
    0xB3, 0x72, 0x2A, 0x83, 0x72, 0x65, 0x6C, 0xA1, 0x84, 0x6E, 0x61, 0x6D, 0x65, 0x84, 0x4D, 0x61, 0x72, 0x6B,
];

#[test]
fn should_serialize_a_relation() {
    let relation = BoltRelation {
        id: BoltInteger::new(42),
        start_node_id: BoltInteger::new(1),
        end_node_id: BoltInteger::new(2),
        typ: BoltString::new("rel"),
        properties: one_entry_map("name", "Mark"),
    };
    let bytes: Bytes = relation.into_bytes(Version::V4_1).unwrap();
    assert_eq!(bytes, Bytes::copy_from_slice(&RELATION_BYTES));
}

#[test]
fn should_deserialize_a_relation() {
    let mut input = Bytes::copy_from_slice(&RELATION_BYTES);
    let relation: BoltRelation = BoltRelation::parse(Version::V4_1, &mut input).unwrap();
    assert_eq!(relation.id, BoltInteger::new(42));
    assert_eq!(relation.start_node_id, BoltInteger::new(1));
    assert_eq!(relation.end_node_id, BoltInteger::new(2));
    assert_eq!(relation.typ, BoltString::new("rel"));
    assert_eq!(relation.properties, one_entry_map("name", "Mark"));
}

#[test]
fn should_serialize_an_unbounded_relation() {
    let relation = BoltUnboundedRelation::new(BoltInteger::new(42), BoltString::new("rel"), one_entry_map("name", "Mark"));
    let bytes: Bytes = relation.into_bytes(Version::V4_1).unwrap();
    assert_eq!(bytes, Bytes::copy_from_slice(&UNBOUNDED_BYTES));
}

#[test]
fn should_deserialize_an_unbounded_relation() {
    let mut input = Bytes::copy_from_slice(&UNBOUNDED_BYTES);
    let relation: BoltUnboundedRelation = BoltUnboundedRelation::parse(Version::V4_1, &mut input).unwrap();
    assert_eq!(relation.id, BoltInteger::new(42));
    assert_eq!(relation.typ, BoltString::new("rel"));
    assert_eq!(relation.properties, one_entry_map("name", "Mark"));
}

#[test]
fn should_serialize_empty_string() {
    let b: Bytes = BoltString::new("").into_bytes(Version::V4_1).unwrap();
    assert_eq!(&b[..], Bytes::from_static(&[TINY]));
}

#[test]
fn should_deserialize_empty_string() {
    let mut input = Bytes::from_static(&[TINY]);
    let s: BoltString = BoltString::parse(Version::V4_1, &mut input).unwrap();
    assert_eq!(s, "".into());
}

#[test]
fn should_serialize_tiny_string() {
    let b: Bytes = BoltString::new("a").into_bytes(Version::V4_1).unwrap();
    assert_eq!(&b[..], Bytes::from_static(&[0x81, 0x61]));
}

#[test]
fn should_deserialize_tiny_string() {
    let mut input = Bytes::from_static(&[0x81, 0x61]);
    let result: BoltString = BoltString::parse(Version::V4_1, &mut input).unwrap();
    assert_eq!(result, "a".into());
}

#[test]
fn should_serialize_small_string() {
    let mut b: Bytes = BoltString::new(&"a".repeat(16)).into_bytes(Version::V4_1).unwrap();
    assert_eq!(b.get_u8(), SMALL);
    assert_eq!(b.get_u8(), 0x10);
    assert_eq!(b.len(), 0x10);
    for value in b {
        assert_eq!(value, 0x61);
    }
}

#[test]
fn should_deserialize_small_string() {
    let mut input = Bytes::from_static(&[SMALL, 0x01, 0x61]);
    let result: BoltString = BoltString::parse(Version::V4_1, &mut input).unwrap();
    assert_eq!(result, "a".into());
}

#[test]
fn should_serialize_medium_string() {
    let mut b: Bytes = BoltString::new(&"a".repeat(256)).into_bytes(Version::V4_1).unwrap();
    assert_eq!(b.get_u8(), MEDIUM);
    assert_eq!(b.get_u16(), 0x100);
    assert_eq!(b.len(), 0x100);
    for value in b {
        assert_eq!(value, 0x61);
    }
}

#[test]
fn should_deserialize_medium_string() {
    let mut input = Bytes::from_static(&[MEDIUM, 0x00, 0x01, 0x61]);
    let result: BoltString = BoltString::parse(Version::V4_1, &mut input).unwrap();
    assert_eq!(result, "a".into());
}

#[test]
fn should_serialize_large_string() {
    let mut b: Bytes = BoltString::new(&"a".repeat(65_536)).into_bytes(Version::V4_1).unwrap();
    assert_eq!(b.get_u8(), LARGE);
    assert_eq!(b.get_u32(), 0x10000);
    assert_eq!(b.len(), 0x10000);
    for value in b {
        assert_eq!(value, 0x61);
    }
}

#[test]
fn should_deserialize_large_string() {
    let mut input = Bytes::from_static(&[LARGE, 0x00, 0x00, 0x00, 0x01, 0x61]);
    let result: BoltString = BoltString::parse(Version::V4_1, &mut input).unwrap();
    assert_eq!(result, "a".into());
}
