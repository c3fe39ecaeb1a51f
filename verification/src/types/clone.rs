//! Copies of values that hold other values.
use vstd::prelude::*;
use crate::types::{
    list_values, map_values, type_model, BoltBytes, BoltDate, BoltDateTime, BoltDateTimeZoneId, BoltDuration,
    BoltFloat, BoltInteger, BoltList, BoltLocalDateTime, BoltLocalTime, BoltMap, BoltNode, BoltPath, BoltPoint2D,
    BoltPoint3D, BoltRelation, BoltString, BoltTime, BoltType, BoltUnboundedRelation,
};
use crate::wire::Model;

verus! {

/// A copy of an integer.
fn copy_int(i: &BoltInteger) -> (r: BoltInteger)
    ensures
        r == *i,
{
    BoltInteger { value: i.value }
}

/// A copy of a float.
fn copy_float(f: &BoltFloat) -> (r: BoltFloat)
    ensures
        r == *f,
{
    BoltFloat { bits: f.bits }
}

/// A copy of a string.
fn copy_string(s: &BoltString) -> (r: BoltString)
    ensures
        r.value@ == s.value@,
{
    BoltString { value: s.value.clone() }
}

impl Clone for BoltList {
    fn clone(&self) -> (r: Self)
        ensures
            list_values(r) == list_values(*self),
        decreases self, 0nat,
    {
        let n = self.value.len();
        let mut value: Vec<BoltType> = Vec::with_capacity(n);
        let mut i: usize = 0;
        while i < n
            invariant
                i <= n,
                n == self.value@.len(),
                value@.len() == i,
                forall|k: int| 0 <= k < i ==> type_model(#[trigger] value@[k]) == type_model(self.value@[k]),
            decreases n - i,
        {
            value.push(self.value[i].clone());
            i = i + 1;
        }
        let r = BoltList { value };
        assert(list_values(r) =~= list_values(*self));
        r
    }
}

impl Clone for BoltMap {
    fn clone(&self) -> (r: Self)
        ensures
            map_values(r) == map_values(*self),
            self.wf() ==> r.wf(),
        decreases self, 2nat,
    {
        self.copied()
    }
}

impl Clone for BoltNode {
    fn clone(&self) -> (r: Self)
        ensures
            r.model() == self.model(),
        decreases self, 0nat,
    {
        BoltNode { id: copy_int(&self.id), labels: self.labels.clone(), properties: self.properties.clone() }
    }
}

impl Clone for BoltRelation {
    fn clone(&self) -> (r: Self)
        ensures
            r.model() == self.model(),
        decreases self, 0nat,
    {
        BoltRelation {
            id: copy_int(&self.id),
            start_node_id: copy_int(&self.start_node_id),
            end_node_id: copy_int(&self.end_node_id),
            typ: copy_string(&self.typ),
            properties: self.properties.clone(),
        }
    }
}

impl Clone for BoltUnboundedRelation {
    fn clone(&self) -> (r: Self)
        ensures
            r.model() == self.model(),
        decreases self, 0nat,
    {
        BoltUnboundedRelation { id: copy_int(&self.id), typ: copy_string(&self.typ), properties: self.properties.clone() }
    }
}

impl Clone for BoltPath {
    fn clone(&self) -> (r: Self)
        ensures
            r.model() == self.model(),
        decreases self, 0nat,
    {
        BoltPath { nodes: self.nodes.clone(), rels: self.rels.clone(), ids: self.ids.clone() }
    }
}

impl Clone for BoltType {
    fn clone(&self) -> (r: Self)
        ensures
            type_model(r) == type_model(*self),
        decreases self, 1nat,
    {
        match self {
            BoltType::String(s) => BoltType::String(copy_string(s)),
            BoltType::Boolean(b) => BoltType::Boolean(crate::types::BoltBoolean { value: b.value }),
            BoltType::Dict(m) => BoltType::Dict(m.clone()),
            BoltType::Null(_) => BoltType::Null(crate::types::BoltNull),
            BoltType::Integer(i) => BoltType::Integer(copy_int(i)),
            BoltType::Float(f) => BoltType::Float(copy_float(f)),
            BoltType::List(l) => BoltType::List(l.clone()),
            BoltType::Node(n) => BoltType::Node(n.clone()),
            BoltType::Relation(x) => BoltType::Relation(x.clone()),
            BoltType::UnboundedRelation(x) => BoltType::UnboundedRelation(x.clone()),
            BoltType::Point2D(p) => BoltType::Point2D(
                BoltPoint2D { sr_id: copy_int(&p.sr_id), x: copy_float(&p.x), y: copy_float(&p.y) },
            ),
            BoltType::Point3D(p) => BoltType::Point3D(
                BoltPoint3D {
                    sr_id: copy_int(&p.sr_id),
                    x: copy_float(&p.x),
                    y: copy_float(&p.y),
                    z: copy_float(&p.z),
                },
            ),
            BoltType::Bytes(b) => BoltType::Bytes(BoltBytes { value: b.value.clone() }),
            BoltType::Path(p) => BoltType::Path(p.clone()),
            BoltType::Duration(d) => BoltType::Duration(
                BoltDuration {
                    months: copy_int(&d.months),
                    days: copy_int(&d.days),
                    seconds: copy_int(&d.seconds),
                    nanoseconds: copy_int(&d.nanoseconds),
                },
            ),
            BoltType::Date(d) => BoltType::Date(BoltDate { days: copy_int(&d.days) }),
            BoltType::Time(t) => BoltType::Time(
                BoltTime { nanoseconds: copy_int(&t.nanoseconds), tz_offset_seconds: copy_int(&t.tz_offset_seconds) },
            ),
            BoltType::LocalTime(t) => BoltType::LocalTime(BoltLocalTime { nanoseconds: copy_int(&t.nanoseconds) }),
            BoltType::DateTime(d) => BoltType::DateTime(
                BoltDateTime {
                    seconds: copy_int(&d.seconds),
                    nanoseconds: copy_int(&d.nanoseconds),
                    tz_offset_seconds: copy_int(&d.tz_offset_seconds),
                },
            ),
            BoltType::LocalDateTime(d) => BoltType::LocalDateTime(
                BoltLocalDateTime { seconds: copy_int(&d.seconds), nanoseconds: copy_int(&d.nanoseconds) },
            ),
            BoltType::DateTimeZoneId(d) => BoltType::DateTimeZoneId(
                BoltDateTimeZoneId {
                    seconds: copy_int(&d.seconds),
                    nanoseconds: copy_int(&d.nanoseconds),
                    tz_id: copy_string(&d.tz_id),
                },
            ),
        }
    }
}

} // verus!
