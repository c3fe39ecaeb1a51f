//! Values converted into tuples: lists of the length of the tuple, and the
//! fields of points.
use vstd::prelude::*;
use crate::convert::{invalid_type, owned, FromBolt};
use crate::de::{names, DeError, DeErrorModel, Unexpected, UnexpectedModel};
use crate::model::Value;
use crate::extract::{offset_expected, offset_of, read_offset, Offset};
use crate::temporal::{checked_time_of_nanos, time_of_day_exists, time_of_nanos, TimeOfDay};
use crate::types::{list_values, type_model, BoltFloat, BoltInteger, BoltType};

verus! {

/// The error of the third coordinate that a point in two dimensions lacks.
pub open spec fn missing_z() -> DeErrorModel {
    DeErrorModel::UnknownField { field: "z"@, expected: seq!["sr_id"@, "x"@, "y"@] }
}

/// What the elements of a tuple of `n` read of `v`: the elements of a list
/// of that length; of a point its coordinates (`n` = 2), its reference
/// system and coordinates (`n` = 4, and `n` = 3 in two dimensions), or its
/// three coordinates (`n` = 3 in three dimensions), where a point in two
/// dimensions lacks a third coordinate. `None` where `v` gives no tuple
/// of `n`.
pub open spec fn tuple_items(v: Value, n: int) -> Option<Seq<Result<Value, DeErrorModel>>> {
    match v {
        Value::List(items) => if items.len() == n {
            Some(Seq::new(items.len(), |i: int| Ok::<Value, DeErrorModel>(items[i])))
        } else {
            None
        },
        Value::Point2D(sr_id, x, y) => if n == 2 {
            Some(seq![Ok(Value::Float(x)), Ok(Value::Float(y))])
        } else if n == 3 {
            Some(seq![Ok(Value::Integer(sr_id)), Ok(Value::Float(x)), Ok(Value::Float(y))])
        } else if n == 4 {
            Some(seq![Ok(Value::Integer(sr_id)), Ok(Value::Float(x)), Ok(Value::Float(y)), Err(missing_z())])
        } else {
            None
        },
        Value::Point3D(sr_id, x, y, z) => if n == 2 {
            Some(seq![Ok(Value::Float(x)), Ok(Value::Float(y))])
        } else if n == 3 {
            Some(seq![Ok(Value::Float(x)), Ok(Value::Float(y)), Ok(Value::Float(z))])
        } else if n == 4 {
            Some(seq![Ok(Value::Integer(sr_id)), Ok(Value::Float(x)), Ok(Value::Float(y)), Ok(Value::Float(z))])
        } else {
            None
        },
        _ => None,
    }
}

/// Converting one element of a tuple.
pub open spec fn convert_item<T: FromBolt>(item: Result<Value, DeErrorModel>) -> Result<T::Out, DeErrorModel> {
    match item {
        Ok(v) => T::convert(v),
        Err(e) => Err(e),
    }
}

/// Whether `value` gives a tuple of `n`.
fn gives_tuple(value: &BoltType, n: usize) -> (r: bool)
    ensures
        r == (tuple_items(type_model(*value), n as int) is Some),
{
    match value {
        BoltType::List(l) => l.value.len() == n,
        BoltType::Point2D(_) | BoltType::Point3D(_) => 2 <= n && n <= 4,
        _ => false,
    }
}

/// The element `i` of the tuple of `n` that `value` gives.
fn tuple_item(value: &BoltType, n: usize, i: usize) -> (r: Result<BoltType, DeError>)
    requires
        tuple_items(type_model(*value), n as int) is Some,
        i < n,
    ensures
        match tuple_items(type_model(*value), n as int)->0[i as int] {
            Ok(x) => r matches Ok(b) && type_model(b) == x,
            Err(e) => r matches Err(x) && x@ == e,
        },
{
    match value {
        BoltType::List(l) => {
            assert(list_values(*l)[i as int] == type_model(l.value@[i as int]));
            Ok(l.value[i].clone())
        },
        BoltType::Point2D(p) => {
            let sr_id = BoltType::Integer(BoltInteger::new(p.sr_id.value));
            let x = BoltType::Float(BoltFloat::from_bits(p.x.bits));
            let y = BoltType::Float(BoltFloat::from_bits(p.y.bits));
            if n == 2 {
                if i == 0 { Ok(x) } else { Ok(y) }
            } else if i == 0 {
                Ok(sr_id)
            } else if i == 1 {
                Ok(x)
            } else if i == 2 {
                Ok(y)
            } else {
                let e = DeError::UnknownField { field: owned("z"), expected: &["sr_id", "x", "y"] };
                assert(names(e->expected) =~= seq!["sr_id"@, "x"@, "y"@]);
                Err(e)
            }
        },
        BoltType::Point3D(p) => {
            let sr_id = BoltType::Integer(BoltInteger::new(p.sr_id.value));
            let x = BoltType::Float(BoltFloat::from_bits(p.x.bits));
            let y = BoltType::Float(BoltFloat::from_bits(p.y.bits));
            let z = BoltType::Float(BoltFloat::from_bits(p.z.bits));
            if n == 2 {
                if i == 0 { Ok(x) } else { Ok(y) }
            } else if n == 3 {
                if i == 0 { Ok(x) } else if i == 1 { Ok(y) } else { Ok(z) }
            } else if i == 0 {
                Ok(sr_id)
            } else if i == 1 {
                Ok(x)
            } else if i == 2 {
                Ok(y)
            } else {
                Ok(z)
            }
        },
        _ => vstd::pervasive::unreached(),
    }
}

/// Converts the element `i` of the tuple of `n` that `value` gives.
fn convert_tuple_item<T: FromBolt>(value: &BoltType, n: usize, i: usize) -> (r: Result<T, DeError>)
    requires
        tuple_items(type_model(*value), n as int) is Some,
        i < n,
    ensures
        match convert_item::<T>(tuple_items(type_model(*value), n as int)->0[i as int]) {
            Ok(o) => r matches Ok(x) && T::out(x) == o,
            Err(e) => r matches Err(x) && x@ == e,
        },
{
    match tuple_item(value, n, i) {
        Ok(b) => T::from_bolt(&b),
        Err(e) => Err(e),
    }
}

impl FromBolt for BoltFloat {
    type Out = u64;

    open spec fn out(x: BoltFloat) -> u64 {
        x.bits
    }

    open spec fn convert(v: Value) -> Result<u64, DeErrorModel> {
        match v {
            Value::Float(bits) => Ok(bits),
            _ => Err(invalid_type(v, "f64"@)),
        }
    }

    fn from_bolt(value: &BoltType) -> (r: Result<BoltFloat, DeError>) {
        match value {
            BoltType::Float(f) => Ok(BoltFloat::from_bits(f.bits)),
            _ => Err(DeError::InvalidType { received: value.unexpected(), expected: owned("f64") }),
        }
    }
}

impl<A: FromBolt, B: FromBolt> FromBolt for (A, B) {
    type Out = (A::Out, B::Out);

    open spec fn out(x: (A, B)) -> (A::Out, B::Out) {
        (A::out(x.0), B::out(x.1))
    }

    open spec fn convert(v: Value) -> Result<(A::Out, B::Out), DeErrorModel> {
        match tuple_items(v, 2) {
            None => Err(invalid_type(v, "a tuple of size 2"@)),
            Some(items) => match convert_item::<A>(items[0]) {
                Err(e) => Err(e),
                Ok(o0) => match convert_item::<B>(items[1]) {
                Err(e) => Err(e),
                Ok(o1) => Ok((o0, o1)),
            },
            },
        }
    }

    fn from_bolt(value: &BoltType) -> (r: Result<(A, B), DeError>) {
        if !gives_tuple(value, 2) {
            return Err(DeError::InvalidType { received: value.unexpected(), expected: owned("a tuple of size 2") });
        }
        let x0 = match convert_tuple_item::<A>(value, 2, 0) {
            Ok(x) => x,
            Err(e) => return Err(e),
        };
        let x1 = match convert_tuple_item::<B>(value, 2, 1) {
            Ok(x) => x,
            Err(e) => return Err(e),
        };
        Ok((x0, x1))
    }
}

impl<A: FromBolt, B: FromBolt, C: FromBolt> FromBolt for (A, B, C) {
    type Out = (A::Out, B::Out, C::Out);

    open spec fn out(x: (A, B, C)) -> (A::Out, B::Out, C::Out) {
        (A::out(x.0), B::out(x.1), C::out(x.2))
    }

    open spec fn convert(v: Value) -> Result<(A::Out, B::Out, C::Out), DeErrorModel> {
        match tuple_items(v, 3) {
            None => Err(invalid_type(v, "a tuple of size 3"@)),
            Some(items) => match convert_item::<A>(items[0]) {
                Err(e) => Err(e),
                Ok(o0) => match convert_item::<B>(items[1]) {
                Err(e) => Err(e),
                Ok(o1) => match convert_item::<C>(items[2]) {
                Err(e) => Err(e),
                Ok(o2) => Ok((o0, o1, o2)),
            },
            },
            },
        }
    }

    fn from_bolt(value: &BoltType) -> (r: Result<(A, B, C), DeError>) {
        if !gives_tuple(value, 3) {
            return Err(DeError::InvalidType { received: value.unexpected(), expected: owned("a tuple of size 3") });
        }
        let x0 = match convert_tuple_item::<A>(value, 3, 0) {
            Ok(x) => x,
            Err(e) => return Err(e),
        };
        let x1 = match convert_tuple_item::<B>(value, 3, 1) {
            Ok(x) => x,
            Err(e) => return Err(e),
        };
        let x2 = match convert_tuple_item::<C>(value, 3, 2) {
            Ok(x) => x,
            Err(e) => return Err(e),
        };
        Ok((x0, x1, x2))
    }
}

impl<A: FromBolt, B: FromBolt, C: FromBolt, D: FromBolt> FromBolt for (A, B, C, D) {
    type Out = (A::Out, B::Out, C::Out, D::Out);

    open spec fn out(x: (A, B, C, D)) -> (A::Out, B::Out, C::Out, D::Out) {
        (A::out(x.0), B::out(x.1), C::out(x.2), D::out(x.3))
    }

    open spec fn convert(v: Value) -> Result<(A::Out, B::Out, C::Out, D::Out), DeErrorModel> {
        match tuple_items(v, 4) {
            None => Err(invalid_type(v, "a tuple of size 4"@)),
            Some(items) => match convert_item::<A>(items[0]) {
                Err(e) => Err(e),
                Ok(o0) => match convert_item::<B>(items[1]) {
                Err(e) => Err(e),
                Ok(o1) => match convert_item::<C>(items[2]) {
                Err(e) => Err(e),
                Ok(o2) => match convert_item::<D>(items[3]) {
                Err(e) => Err(e),
                Ok(o3) => Ok((o0, o1, o2, o3)),
            },
            },
            },
            },
        }
    }

    fn from_bolt(value: &BoltType) -> (r: Result<(A, B, C, D), DeError>) {
        if !gives_tuple(value, 4) {
            return Err(DeError::InvalidType { received: value.unexpected(), expected: owned("a tuple of size 4") });
        }
        let x0 = match convert_tuple_item::<A>(value, 4, 0) {
            Ok(x) => x,
            Err(e) => return Err(e),
        };
        let x1 = match convert_tuple_item::<B>(value, 4, 1) {
            Ok(x) => x,
            Err(e) => return Err(e),
        };
        let x2 = match convert_tuple_item::<C>(value, 4, 2) {
            Ok(x) => x,
            Err(e) => return Err(e),
        };
        let x3 = match convert_tuple_item::<D>(value, 4, 3) {
            Ok(x) => x,
            Err(e) => return Err(e),
        };
        Ok((x0, x1, x2, x3))
    }
}

/// The offset of a time when read as an optional offset: none where it is
/// zero, else an offset of less than a day either way.
pub open spec fn optional_offset(off: i64) -> Result<Option<i32>, DeErrorModel> {
    if off == 0 {
        Ok(None)
    } else {
        match offset_of(off as int) {
            Ok(o) => Ok(Some(o)),
            Err(e) => Err(e),
        }
    }
}

impl FromBolt for (TimeOfDay, Option<Offset<i32>>) {
    type Out = (TimeOfDay, Option<i32>);

    open spec fn out(x: (TimeOfDay, Option<Offset<i32>>)) -> (TimeOfDay, Option<i32>) {
        (
            x.0,
            match x.1 {
                Some(o) => Some(o.0),
                None => None,
            },
        )
    }

    /// A time reads as its time of day and its offset, a zero offset as
    /// none; a local time as its time of day and no offset.
    open spec fn convert(v: Value) -> Result<(TimeOfDay, Option<i32>), DeErrorModel> {
        match v {
            Value::Time(n, off) => {
                let t = time_of_nanos(n);
                if time_of_day_exists(t.seconds, t.nanoseconds) {
                    match optional_offset(off) {
                        Ok(o) => Ok((t, o)),
                        Err(e) => Err(e),
                    }
                } else {
                    Err(DeErrorModel::Other("Could not convert Neo4j Time into chrono::NaiveTime"@))
                }
            },
            Value::LocalTime(n) => {
                let t = time_of_nanos(n);
                if time_of_day_exists(t.seconds, t.nanoseconds) {
                    Ok((t, None))
                } else {
                    Err(DeErrorModel::Other("Could not convert Neo4j LocalTime into chrono::NaiveTime"@))
                }
            },
            _ => Err(invalid_type(v, "a tuple of size 2"@)),
        }
    }

    fn from_bolt(value: &BoltType) -> (r: Result<(TimeOfDay, Option<Offset<i32>>), DeError>) {
        match value {
            BoltType::Time(t) => match checked_time_of_nanos(t.nanoseconds.value) {
                Some(time) => {
                    let off = t.tz_offset_seconds.value;
                    if off == 0 {
                        Ok((time, None))
                    } else {
                        match read_offset(off) {
                            Ok(o) => Ok((time, Some(o))),
                            Err(e) => Err(e),
                        }
                    }
                },
                None => Err(DeError::Other(owned("Could not convert Neo4j Time into chrono::NaiveTime"))),
            },
            BoltType::LocalTime(t) => match checked_time_of_nanos(t.nanoseconds.value) {
                Some(time) => Ok((time, None)),
                None => Err(DeError::Other(owned("Could not convert Neo4j LocalTime into chrono::NaiveTime"))),
            },
            _ => Err(DeError::InvalidType { received: value.unexpected(), expected: owned("a tuple of size 2") }),
        }
    }
}

/// The error of an offset that a time lacks.
pub open spec fn no_offset() -> DeErrorModel {
    DeErrorModel::InvalidType { received: UnexpectedModel::OptionValue, expected: offset_expected() }
}

impl FromBolt for (TimeOfDay, Offset<i32>) {
    type Out = (TimeOfDay, i32);

    open spec fn out(x: (TimeOfDay, Offset<i32>)) -> (TimeOfDay, i32) {
        (x.0, x.1.0)
    }

    /// A time reads as its time of day and its offset; a zero offset, like
    /// the offset that a local time lacks, is none and refused.
    open spec fn convert(v: Value) -> Result<(TimeOfDay, i32), DeErrorModel> {
        match v {
            Value::Time(n, off) => {
                let t = time_of_nanos(n);
                if !time_of_day_exists(t.seconds, t.nanoseconds) {
                    Err(DeErrorModel::Other("Could not convert Neo4j Time into chrono::NaiveTime"@))
                } else if off == 0 {
                    Err(no_offset())
                } else {
                    match offset_of(off as int) {
                        Ok(o) => Ok((t, o)),
                        Err(e) => Err(e),
                    }
                }
            },
            Value::LocalTime(n) => {
                let t = time_of_nanos(n);
                if time_of_day_exists(t.seconds, t.nanoseconds) {
                    Err(no_offset())
                } else {
                    Err(DeErrorModel::Other("Could not convert Neo4j LocalTime into chrono::NaiveTime"@))
                }
            },
            _ => Err(invalid_type(v, "a tuple of size 2"@)),
        }
    }

    fn from_bolt(value: &BoltType) -> (r: Result<(TimeOfDay, Offset<i32>), DeError>) {
        match value {
            BoltType::Time(t) => match checked_time_of_nanos(t.nanoseconds.value) {
                Some(time) => {
                    let off = t.tz_offset_seconds.value;
                    if off == 0 {
                        Err(DeError::InvalidType {
                            received: Unexpected::OptionValue,
                            expected: owned("an offset value as i32 within [-86_400, 86_400]"),
                        })
                    } else {
                        match read_offset(off) {
                            Ok(o) => Ok((time, o)),
                            Err(e) => Err(e),
                        }
                    }
                },
                None => Err(DeError::Other(owned("Could not convert Neo4j Time into chrono::NaiveTime"))),
            },
            BoltType::LocalTime(t) => match checked_time_of_nanos(t.nanoseconds.value) {
                Some(_) => Err(DeError::InvalidType {
                    received: Unexpected::OptionValue,
                    expected: owned("an offset value as i32 within [-86_400, 86_400]"),
                }),
                None => Err(DeError::Other(owned("Could not convert Neo4j LocalTime into chrono::NaiveTime"))),
            },
            _ => Err(DeError::InvalidType { received: value.unexpected(), expected: owned("a tuple of size 2") }),
        }
    }
}

} // verus!
