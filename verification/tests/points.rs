use neo4rs_bolt::de::DeError;
use neo4rs_bolt::types::{BoltFloat, BoltInteger, BoltList, BoltPoint2D, BoltPoint3D, BoltType};

fn float(x: f64) -> BoltFloat {
    BoltFloat::from_bits(x.to_bits())
}

fn number(f: BoltFloat) -> f64 {
    f64::from_bits(f.bits)
}

fn test_point2d() -> BoltType {
    BoltType::Point2D(BoltPoint2D { sr_id: BoltInteger::new(420), x: float(42.0), y: float(13.37) })
}

fn test_point3d() -> BoltType {
    BoltType::Point3D(BoltPoint3D { sr_id: BoltInteger::new(420), x: float(42.0), y: float(13.37), z: float(84.0) })
}

#[test]
fn point2d_tuple_full() {
    let (sr_id, x, y) = test_point2d().to::<(i32, BoltFloat, BoltFloat)>().unwrap();
    assert_eq!((sr_id, number(x), number(y)), (420, 42.0, 13.37));
}

#[test]
fn point2d_tuple_xy() {
    let (x, y) = test_point2d().to::<(BoltFloat, BoltFloat)>().unwrap();
    assert_eq!((number(x), number(y)), (42.0, 13.37));
}

#[test]
fn point3d_tuple_full() {
    let (sr_id, x, y, z) = test_point3d().to::<(i32, BoltFloat, BoltFloat, BoltFloat)>().unwrap();
    assert_eq!((sr_id, number(x), number(y), number(z)), (420, 42.0, 13.37, 84.0));
}

#[test]
fn point3d_tuple_xy() {
    let (x, y) = test_point3d().to::<(BoltFloat, BoltFloat)>().unwrap();
    assert_eq!((number(x), number(y)), (42.0, 13.37));
}

#[test]
fn point3d_tuple_xyz() {
    let (x, y, z) = test_point3d().to::<(BoltFloat, BoltFloat, BoltFloat)>().unwrap();
    assert_eq!((number(x), number(y), number(z)), (42.0, 13.37, 84.0));
}

#[test]
fn point2d_has_no_third_coordinate() {
    let r = test_point2d().to::<(i64, BoltFloat, BoltFloat, BoltFloat)>();
    assert!(matches!(r, Err(DeError::UnknownField { field, expected }) if field == "z" && expected == ["sr_id", "x", "y"]));
    // the reference system is no float
    assert!(matches!(test_point2d().to::<(BoltFloat, BoltFloat, BoltFloat)>(), Err(DeError::InvalidType { .. })));
}

#[test]
fn lists_read_as_tuples_of_their_length() {
    let list = BoltType::List(BoltList::from(vec![BoltType::from(1i64), BoltType::from(true)]));
    assert_eq!(list.to::<(i64, bool)>().unwrap(), (1, true));
    assert!(matches!(list.to::<(i64, bool, i64)>(), Err(DeError::InvalidType { expected, .. }) if expected == "a tuple of size 3"));
    assert!(matches!(list.to::<(bool, bool)>(), Err(DeError::InvalidType { .. })));
    assert!(matches!(BoltType::from(1i64).to::<(i64, i64)>(), Err(DeError::InvalidType { .. })));
}
