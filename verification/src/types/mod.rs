//! The values of the PackStream format.
use vstd::prelude::*;
use bytes::{Bytes, BytesMut};
use crate::buffer::{buffer_content, buffer_new, bytes_as_slice, bytes_content, freeze};
use crate::errors::Error;
use crate::model::Value;
use crate::version::Version;
use crate::wire::{has_signature, lemma_unfold_decode, lemma_unfold_decode_structure, decode, decode_structure, encode, parsed, wrote, Model};

pub mod binary;
pub mod boolean;
pub mod clone;
pub mod conversions;
pub mod date;
pub mod date_time;
pub mod duration;
pub mod float;
pub mod integer;
pub mod list;
pub mod map;
pub mod node;
pub mod null;
pub mod path;
pub mod point;
pub mod relation;
pub mod string;
pub mod time;

pub use binary::BoltBytes;
pub use boolean::BoltBoolean;
pub use date::BoltDate;
pub use date_time::{BoltDateTime, BoltDateTimeZoneId, BoltLocalDateTime};
pub use duration::BoltDuration;
pub use float::BoltFloat;
pub use integer::BoltInteger;
pub use list::BoltList;
pub use map::BoltMap;
pub use node::BoltNode;
pub use null::BoltNull;
pub use path::BoltPath;
pub use point::{BoltPoint2D, BoltPoint3D};
pub use relation::{BoltRelation, BoltUnboundedRelation};
pub use string::BoltString;
pub use time::{BoltLocalTime, BoltTime};

verus! {

/// A value of any PackStream type.
#[derive(Debug, PartialEq)]
pub enum BoltType {
    String(BoltString),
    Boolean(BoltBoolean),
    Dict(BoltMap),
    Null(BoltNull),
    Integer(BoltInteger),
    Float(BoltFloat),
    List(BoltList),
    Node(BoltNode),
    Relation(BoltRelation),
    UnboundedRelation(BoltUnboundedRelation),
    Point2D(BoltPoint2D),
    Point3D(BoltPoint3D),
    Bytes(BoltBytes),
    Path(BoltPath),
    Duration(BoltDuration),
    Date(BoltDate),
    Time(BoltTime),
    LocalTime(BoltLocalTime),
    DateTime(BoltDateTime),
    LocalDateTime(BoltLocalDateTime),
    DateTimeZoneId(BoltDateTimeZoneId),
}

/// The model of a value.
pub open spec fn type_model(t: BoltType) -> Value
    decreases t,
{
    match t {
        BoltType::String(s) => Value::String(s.value@),
        BoltType::Boolean(b) => Value::Boolean(b.value),
        BoltType::Dict(m) => Value::Dict(map_values(m)),
        BoltType::Null(_) => Value::Null,
        BoltType::Integer(i) => Value::Integer(i.value),
        BoltType::Float(f) => Value::Float(f.bits),
        BoltType::List(l) => Value::List(list_values(l)),
        BoltType::Node(n) => Value::Node(n.id.value, list_values(n.labels), map_values(n.properties)),
        BoltType::Relation(r) => Value::Relation(
            r.id.value,
            r.start_node_id.value,
            r.end_node_id.value,
            r.typ.value@,
            map_values(r.properties),
        ),
        BoltType::UnboundedRelation(r) => Value::UnboundedRelation(r.id.value, r.typ.value@, map_values(r.properties)),
        BoltType::Point2D(p) => Value::Point2D(p.sr_id.value, p.x.bits, p.y.bits),
        BoltType::Point3D(p) => Value::Point3D(p.sr_id.value, p.x.bits, p.y.bits, p.z.bits),
        BoltType::Bytes(b) => Value::Bytes(bytes_content(b.value)),
        BoltType::Path(p) => Value::Path(list_values(p.nodes), list_values(p.rels), list_values(p.ids)),
        BoltType::Duration(d) => Value::Duration(d.months.value, d.days.value, d.seconds.value, d.nanoseconds.value),
        BoltType::Date(d) => Value::Date(d.days.value),
        BoltType::Time(t) => Value::Time(t.nanoseconds.value, t.tz_offset_seconds.value),
        BoltType::LocalTime(t) => Value::LocalTime(t.nanoseconds.value),
        BoltType::DateTime(d) => Value::DateTime(d.seconds.value, d.nanoseconds.value, d.tz_offset_seconds.value),
        BoltType::LocalDateTime(d) => Value::LocalDateTime(d.seconds.value, d.nanoseconds.value),
        BoltType::DateTimeZoneId(d) => Value::DateTimeZoneId(d.seconds.value, d.nanoseconds.value, d.tz_id.value@),
    }
}

/// The models of the elements of a list.
pub open spec fn list_values(l: BoltList) -> Seq<Value>
    decreases l,
{
    Seq::new(
        l.value@.len(),
        |i: int| if 0 <= i < l.value@.len() { type_model(l.value@[i]) } else { Value::Null },
    )
}

/// The models of the entries of a map.
pub open spec fn map_values(m: BoltMap) -> Seq<(Seq<char>, Value)>
    decreases m,
{
    Seq::new(
        m.value@.len(),
        |i: int| if 0 <= i < m.value@.len() {
            (m.value@[i].0.value@, type_model(m.value@[i].1))
        } else {
            (Seq::empty(), Value::Null)
        },
    )
}

impl Model for BoltType {
    type M = Value;

    open spec fn model(&self) -> Value {
        type_model(*self)
    }
}

impl BoltType {
    /// Reads a value of any type off the front of `input`: the marker (and,
    /// for a structure, the signature) decides the type.
    pub fn parse(version: Version, input: &mut Bytes) -> (r: Result<BoltType, Error>)
        requires
            !(decode(bytes_content(*old(input))) is Short),
        ensures
            parsed(decode(bytes_content(*old(input))), bytes_content(*old(input)), bytes_content(*final(input)), r),
        decreases bytes_content(*old(input)).len(), 2nat,
    {
        proof {
            lemma_unfold_decode(bytes_content(*input));
        }
        let value = if BoltInteger::can_parse(version, bytes_as_slice(input)) {
            match BoltInteger::parse(version, input) {
                Ok(x) => BoltType::Integer(x),
                Err(e) => return Err(e),
            }
        } else if BoltFloat::can_parse(version, bytes_as_slice(input)) {
            match BoltFloat::parse(version, input) {
                Ok(x) => BoltType::Float(x),
                Err(e) => return Err(e),
            }
        } else if BoltString::can_parse(version, bytes_as_slice(input)) {
            match BoltString::parse(version, input) {
                Ok(x) => BoltType::String(x),
                Err(e) => return Err(e),
            }
        } else if BoltList::can_parse(version, bytes_as_slice(input)) {
            match BoltList::parse(version, input) {
                Ok(x) => BoltType::List(x),
                Err(e) => return Err(e),
            }
        } else if BoltMap::can_parse(version, bytes_as_slice(input)) {
            match BoltMap::parse(version, input) {
                Ok(x) => BoltType::Dict(x),
                Err(e) => return Err(e),
            }
        } else if BoltBoolean::can_parse(version, bytes_as_slice(input)) {
            match BoltBoolean::parse(version, input) {
                Ok(x) => BoltType::Boolean(x),
                Err(e) => return Err(e),
            }
        } else if BoltNull::can_parse(version, bytes_as_slice(input)) {
            match BoltNull::parse(version, input) {
                Ok(x) => BoltType::Null(x),
                Err(e) => return Err(e),
            }
        } else if BoltBytes::can_parse(version, bytes_as_slice(input)) {
            match BoltBytes::parse(version, input) {
                Ok(x) => BoltType::Bytes(x),
                Err(e) => return Err(e),
            }
        } else {
            match BoltType::parse_structure(version, input) {
                Ok(x) => x,
                Err(e) => return Err(e),
            }
        };
        Ok(value)
    }

    /// Reads a structure off the front of `input`.
    fn parse_structure(version: Version, input: &mut Bytes) -> (r: Result<BoltType, Error>)
        requires
            bytes_content(*old(input)).len() >= 1,
            !(decode_structure(bytes_content(*old(input))) is Short),
        ensures
            parsed(decode_structure(bytes_content(*old(input))), bytes_content(*old(input)), bytes_content(*final(input)), r),
        decreases bytes_content(*old(input)).len(), 1nat,
    {
        proof {
            lemma_unfold_decode_structure(bytes_content(*input));
        }
        let value = if BoltNode::can_parse(version, bytes_as_slice(input)) {
            match BoltNode::parse(version, input) {
                Ok(x) => BoltType::Node(x),
                Err(e) => return Err(e),
            }
        } else if BoltRelation::can_parse(version, bytes_as_slice(input)) {
            match BoltRelation::parse(version, input) {
                Ok(x) => BoltType::Relation(x),
                Err(e) => return Err(e),
            }
        } else if BoltUnboundedRelation::can_parse(version, bytes_as_slice(input)) {
            match BoltUnboundedRelation::parse(version, input) {
                Ok(x) => BoltType::UnboundedRelation(x),
                Err(e) => return Err(e),
            }
        } else if BoltPoint2D::can_parse(version, bytes_as_slice(input)) {
            match BoltPoint2D::parse(version, input) {
                Ok(x) => BoltType::Point2D(x),
                Err(e) => return Err(e),
            }
        } else if BoltPoint3D::can_parse(version, bytes_as_slice(input)) {
            match BoltPoint3D::parse(version, input) {
                Ok(x) => BoltType::Point3D(x),
                Err(e) => return Err(e),
            }
        } else if BoltPath::can_parse(version, bytes_as_slice(input)) {
            match BoltPath::parse(version, input) {
                Ok(x) => BoltType::Path(x),
                Err(e) => return Err(e),
            }
        } else {
            match BoltType::parse_temporal(version, input) {
                Ok(x) => x,
                Err(e) => return Err(e),
            }
        };
        Ok(value)
    }

    /// Reads a structure that is none of the graph structures off the front
    /// of `input`: a temporal value, or an unknown structure.
    fn parse_temporal(version: Version, input: &mut Bytes) -> (r: Result<BoltType, Error>)
        requires
            bytes_content(*old(input)).len() >= 1,
            !(decode_structure(bytes_content(*old(input))) is Short),
            !has_signature(bytes_content(*old(input)), 0xB3, 0x4E),
            !has_signature(bytes_content(*old(input)), 0xB5, 0x52),
            !has_signature(bytes_content(*old(input)), 0xB3, 0x72),
            !has_signature(bytes_content(*old(input)), 0xB3, 0x58),
            !has_signature(bytes_content(*old(input)), 0xB4, 0x59),
            !has_signature(bytes_content(*old(input)), 0xB3, 0x50),
        ensures
            parsed(decode_structure(bytes_content(*old(input))), bytes_content(*old(input)), bytes_content(*final(input)), r),
    {
        proof {
            lemma_unfold_decode_structure(bytes_content(*input));
        }
        let value = if BoltDuration::can_parse(version, bytes_as_slice(input)) {
            match BoltDuration::parse(version, input) {
                Ok(x) => BoltType::Duration(x),
                Err(e) => return Err(e),
            }
        } else if BoltDate::can_parse(version, bytes_as_slice(input)) {
            match BoltDate::parse(version, input) {
                Ok(x) => BoltType::Date(x),
                Err(e) => return Err(e),
            }
        } else if BoltTime::can_parse(version, bytes_as_slice(input)) {
            match BoltTime::parse(version, input) {
                Ok(x) => BoltType::Time(x),
                Err(e) => return Err(e),
            }
        } else if BoltLocalTime::can_parse(version, bytes_as_slice(input)) {
            match BoltLocalTime::parse(version, input) {
                Ok(x) => BoltType::LocalTime(x),
                Err(e) => return Err(e),
            }
        } else if BoltDateTime::can_parse(version, bytes_as_slice(input)) {
            match BoltDateTime::parse(version, input) {
                Ok(x) => BoltType::DateTime(x),
                Err(e) => return Err(e),
            }
        } else if BoltLocalDateTime::can_parse(version, bytes_as_slice(input)) {
            match BoltLocalDateTime::parse(version, input) {
                Ok(x) => BoltType::LocalDateTime(x),
                Err(e) => return Err(e),
            }
        } else if BoltDateTimeZoneId::can_parse(version, bytes_as_slice(input)) {
            match BoltDateTimeZoneId::parse(version, input) {
                Ok(x) => BoltType::DateTimeZoneId(x),
                Err(e) => return Err(e),
            }
        } else {
            return Err(Error::UnknownType(bytes_as_slice(input)[0]));
        };
        Ok(value)
    }

    /// Appends the encoding of the value.
    pub fn write_into(&self, version: Version, bytes: &mut BytesMut) -> (r: Result<(), Error>)
        ensures
            wrote(encode(type_model(*self)), buffer_content(*old(bytes)), buffer_content(*final(bytes)), r),
        decreases self, 1nat,
    {
        match self {
            BoltType::Integer(x) => x.write_into(version, bytes),
            BoltType::Float(x) => x.write_into(version, bytes),
            BoltType::String(x) => x.write_into(version, bytes),
            BoltType::List(x) => x.write_into(version, bytes),
            BoltType::Dict(x) => x.write_into(version, bytes),
            BoltType::Node(x) => x.write_into(version, bytes),
            BoltType::Boolean(x) => x.write_into(version, bytes),
            BoltType::Null(x) => x.write_into(version, bytes),
            BoltType::Relation(x) => x.write_into(version, bytes),
            BoltType::UnboundedRelation(x) => x.write_into(version, bytes),
            BoltType::Point2D(x) => x.write_into(version, bytes),
            BoltType::Point3D(x) => x.write_into(version, bytes),
            BoltType::Bytes(x) => x.write_into(version, bytes),
            BoltType::Path(x) => x.write_into(version, bytes),
            BoltType::Duration(x) => x.write_into(version, bytes),
            BoltType::Date(x) => x.write_into(version, bytes),
            BoltType::Time(x) => x.write_into(version, bytes),
            BoltType::LocalTime(x) => x.write_into(version, bytes),
            BoltType::DateTime(x) => x.write_into(version, bytes),
            BoltType::LocalDateTime(x) => x.write_into(version, bytes),
            BoltType::DateTimeZoneId(x) => x.write_into(version, bytes),
        }
    }

    /// The encoding of the value.
    pub fn into_bytes(self, version: Version) -> (r: Result<Bytes, Error>)
        ensures
            match encode(type_model(self)) {
                Ok(b) => r matches Ok(x) && bytes_content(x) == b,
                Err(e) => r matches Err(x) && x@ == e,
            },
    {
        let mut bytes = buffer_new();
        match self.write_into(version, &mut bytes) {
            Ok(()) => {
                assert(buffer_content(bytes) =~= encode(type_model(self))->Ok_0);
                Ok(freeze(bytes))
            },
            Err(e) => Err(e),
        }
    }
}

} // verus!
