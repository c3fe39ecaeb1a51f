//! Newtypes that take one part of a graph element or of a value.
use vstd::prelude::*;
use std::collections::HashSet;
use crate::convert::{convert_integer, convert_items, convert_list, integer_within, invalid_type, owned, FromBolt};
use crate::temporal::offset_valid;
use crate::de::{DeError, DeErrorModel, Unexpected, UnexpectedModel};
use crate::model::Value;
use crate::wire::key_index;
use crate::types::{map_values, type_model, BoltList, BoltMap, BoltNode, BoltPath, BoltRelation, BoltString, BoltType, BoltUnboundedRelation};

verus! {

/// The id of a node or relationship.
#[derive(Copy, Clone, Debug, PartialEq, Eq, Hash)]
pub struct Id(pub u64);

/// The id of the start node of a relationship.
#[derive(Copy, Clone, Debug, PartialEq, Eq, Hash)]
pub struct StartNodeId(pub u64);

/// The id of the end node of a relationship.
#[derive(Copy, Clone, Debug, PartialEq, Eq, Hash)]
pub struct EndNodeId(pub u64);

/// The labels of a node.
#[derive(Clone, Debug, PartialEq, Eq, Hash)]
pub struct Labels<Coll = Vec<String>>(pub Coll);

/// The type of a relationship.
#[derive(Clone, Debug, PartialEq, Eq, Hash)]
pub struct Type<T = String>(pub T);

/// The property keys of a node or relationship.
#[derive(Clone, Debug, PartialEq, Eq)]
pub struct Keys<Coll = HashSet<String>>(pub Coll);

/// The zone id of a date-time.
#[derive(Clone, Debug, PartialEq, Eq)]
pub struct Timezone<T = String>(pub T);

/// The offset of a time, in seconds east of UTC (a `chrono::FixedOffset`
/// holds no more).
#[derive(Clone, Debug, PartialEq, Eq)]
pub struct Offset<T = i32>(pub T);

/// The nodes of a path.
#[derive(Clone, Debug, PartialEq, Eq)]
pub struct Nodes<T>(pub Vec<T>);

/// The relationships of a path.
#[derive(Clone, Debug, PartialEq, Eq)]
pub struct Relationships<T>(pub Vec<T>);

/// The indices of a path.
#[derive(Clone, Debug, PartialEq, Eq)]
pub struct Indices<T = i64>(pub Vec<T>);

/// An element id as an unsigned integer.
pub open spec fn id_value(i: i64) -> Result<int, DeErrorModel> {
    if i >= 0 {
        Ok(i as int)
    } else {
        Err(DeErrorModel::InvalidValue { received: UnexpectedModel::Signed(i), expected: "u64"@ })
    }
}

/// A graph element: a node, a relationship, or a path.
pub open spec fn is_element(v: Value) -> bool {
    v is Node || v is Relation || v is UnboundedRelation || v is Path
}

/// The error of an element that lacks the part `field`.
pub open spec fn missing(field: Seq<char>) -> DeErrorModel {
    DeErrorModel::MissingField { field }
}

/// An element id as an unsigned integer.
fn id_of(i: i64) -> (r: Result<u64, DeError>)
    ensures
        match id_value(i) {
            Ok(o) => r matches Ok(x) && x as int == o,
            Err(e) => r matches Err(x) && x@ == e,
        },
{
    if i >= 0 {
        Ok(i as u64)
    } else {
        Err(DeError::InvalidValue { received: Unexpected::Signed(i), expected: owned("u64") })
    }
}

impl FromBolt for Id {
    type Out = int;

    open spec fn out(x: Id) -> int {
        x.0 as int
    }

    open spec fn convert(v: Value) -> Result<int, DeErrorModel> {
        match v {
            Value::Node(id, _, _) => id_value(id),
            Value::Relation(id, _, _, _, _) => id_value(id),
            Value::UnboundedRelation(id, _, _) => id_value(id),
            Value::Path(..) => Err(missing("id"@)),
            _ => u64::convert(v),
        }
    }

    fn from_bolt(value: &BoltType) -> (r: Result<Id, DeError>) {
        let r = match value {
            BoltType::Node(n) => id_of(n.id.value),
            BoltType::Relation(x) => id_of(x.id.value),
            BoltType::UnboundedRelation(x) => id_of(x.id.value),
            BoltType::Path(_) => Err(DeError::MissingField { field: "id" }),
            _ => u64::from_bolt(value),
        };
        match r {
            Ok(i) => Ok(Id(i)),
            Err(e) => Err(e),
        }
    }
}

impl FromBolt for StartNodeId {
    type Out = int;

    open spec fn out(x: StartNodeId) -> int {
        x.0 as int
    }

    open spec fn convert(v: Value) -> Result<int, DeErrorModel> {
        match v {
            Value::Relation(_, start, _, _, _) => id_value(start),
            Value::Node(..) | Value::UnboundedRelation(..) | Value::Path(..) => Err(missing("start_node_id"@)),
            _ => u64::convert(v),
        }
    }

    fn from_bolt(value: &BoltType) -> (r: Result<StartNodeId, DeError>) {
        let r = match value {
            BoltType::Relation(x) => id_of(x.start_node_id.value),
            BoltType::Node(_) | BoltType::UnboundedRelation(_) | BoltType::Path(_) => Err(
                DeError::MissingField { field: "start_node_id" },
            ),
            _ => u64::from_bolt(value),
        };
        match r {
            Ok(i) => Ok(StartNodeId(i)),
            Err(e) => Err(e),
        }
    }
}

impl FromBolt for EndNodeId {
    type Out = int;

    open spec fn out(x: EndNodeId) -> int {
        x.0 as int
    }

    open spec fn convert(v: Value) -> Result<int, DeErrorModel> {
        match v {
            Value::Relation(_, _, end, _, _) => id_value(end),
            Value::Node(..) | Value::UnboundedRelation(..) | Value::Path(..) => Err(missing("end_node_id"@)),
            _ => u64::convert(v),
        }
    }

    fn from_bolt(value: &BoltType) -> (r: Result<EndNodeId, DeError>) {
        let r = match value {
            BoltType::Relation(x) => id_of(x.end_node_id.value),
            BoltType::Node(_) | BoltType::UnboundedRelation(_) | BoltType::Path(_) => Err(
                DeError::MissingField { field: "end_node_id" },
            ),
            _ => u64::from_bolt(value),
        };
        match r {
            Ok(i) => Ok(EndNodeId(i)),
            Err(e) => Err(e),
        }
    }
}

impl<C: FromBolt> FromBolt for Labels<C> {
    type Out = C::Out;

    open spec fn out(x: Labels<C>) -> C::Out {
        C::out(x.0)
    }

    open spec fn convert(v: Value) -> Result<C::Out, DeErrorModel> {
        match v {
            Value::Node(_, labels, _) => C::convert(Value::List(labels)),
            Value::Relation(..) | Value::UnboundedRelation(..) | Value::Path(..) => Err(missing("labels"@)),
            _ => C::convert(v),
        }
    }

    fn from_bolt(value: &BoltType) -> (r: Result<Labels<C>, DeError>) {
        let r = match value {
            BoltType::Node(n) => C::from_bolt(&BoltType::List(n.labels.clone())),
            BoltType::Relation(_) | BoltType::UnboundedRelation(_) | BoltType::Path(_) => Err(
                DeError::MissingField { field: "labels" },
            ),
            _ => C::from_bolt(value),
        };
        match r {
            Ok(c) => Ok(Labels(c)),
            Err(e) => Err(e),
        }
    }
}

impl<T: FromBolt> FromBolt for Type<T> {
    type Out = T::Out;

    open spec fn out(x: Type<T>) -> T::Out {
        T::out(x.0)
    }

    open spec fn convert(v: Value) -> Result<T::Out, DeErrorModel> {
        match v {
            Value::Relation(_, _, _, typ, _) => T::convert(Value::String(typ)),
            Value::UnboundedRelation(_, typ, _) => T::convert(Value::String(typ)),
            Value::Node(..) | Value::Path(..) => Err(missing("type"@)),
            _ => T::convert(v),
        }
    }

    fn from_bolt(value: &BoltType) -> (r: Result<Type<T>, DeError>) {
        let r = match value {
            BoltType::Relation(x) => T::from_bolt(&BoltType::String(BoltString { value: x.typ.value.clone() })),
            BoltType::UnboundedRelation(x) => T::from_bolt(&BoltType::String(BoltString { value: x.typ.value.clone() })),
            BoltType::Node(_) | BoltType::Path(_) => Err(DeError::MissingField { field: "type" }),
            _ => T::from_bolt(value),
        };
        match r {
            Ok(t) => Ok(Type(t)),
            Err(e) => Err(e),
        }
    }
}

/// The keys of a map, as string values.
pub open spec fn key_values(entries: Seq<(Seq<char>, Value)>) -> Seq<Value> {
    Seq::new(entries.len(), |i: int| Value::String(entries[i].0))
}

/// The keys of a map, as a list of strings.
fn keys_of(m: &BoltMap) -> (r: BoltList)
    ensures
        crate::types::list_values(r) == key_values(map_values(*m)),
{
    let n = m.value.len();
    let mut list = BoltList::with_capacity(n);
    let mut i: usize = 0;
    while i < n
        invariant
            i <= n,
            n == m.value@.len(),
            crate::types::list_values(list) =~= key_values(map_values(*m)).subrange(0, i as int),
        decreases n - i,
    {
        let ghost before = crate::types::list_values(list);
        list.push(BoltType::String(BoltString { value: m.value[i].0.value.clone() }));
        assert(crate::types::list_values(list) =~= before.push(key_values(map_values(*m))[i as int]));
        i = i + 1;
    }
    list
}

impl<C: FromBolt> FromBolt for Keys<C> {
    type Out = C::Out;

    open spec fn out(x: Keys<C>) -> C::Out {
        C::out(x.0)
    }

    open spec fn convert(v: Value) -> Result<C::Out, DeErrorModel> {
        match v {
            Value::Node(_, _, props) => C::convert(Value::List(key_values(props))),
            Value::Relation(_, _, _, _, props) => C::convert(Value::List(key_values(props))),
            Value::UnboundedRelation(_, _, props) => C::convert(Value::List(key_values(props))),
            Value::Path(..) => Err(missing("properties"@)),
            _ => C::convert(v),
        }
    }

    fn from_bolt(value: &BoltType) -> (r: Result<Keys<C>, DeError>) {
        let r = match value {
            BoltType::Node(n) => C::from_bolt(&BoltType::List(keys_of(&n.properties))),
            BoltType::Relation(x) => C::from_bolt(&BoltType::List(keys_of(&x.properties))),
            BoltType::UnboundedRelation(x) => C::from_bolt(&BoltType::List(keys_of(&x.properties))),
            BoltType::Path(_) => Err(DeError::MissingField { field: "properties" }),
            _ => C::from_bolt(value),
        };
        match r {
            Ok(c) => Ok(Keys(c)),
            Err(e) => Err(e),
        }
    }
}

/// The error of a graph element asked for a part it has no name for.
pub open spec fn not_a_part(what: Seq<char>) -> DeErrorModel {
    DeErrorModel::InvalidType {
        received: UnexpectedModel::Other(what),
        expected: "one of `Id`, `Labels`, `Type`, `StartNodeId`, `EndNodeId`, `Keys`, `Nodes`, `Relationships`, or `Indices`"@,
    }
}

/// What an offset expects.
pub open spec fn offset_expected() -> Seq<char> {
    "an offset value as i32 within [-86_400, 86_400]"@
}

/// The offset that `i` seconds read as: less than a day either way, else
/// an invalid value.
pub open spec fn offset_of(i: int) -> Result<i32, DeErrorModel> {
    if -86_400 < i < 86_400 {
        Ok(i as i32)
    } else {
        Err(DeErrorModel::InvalidValue { received: UnexpectedModel::Signed(i as i64), expected: offset_expected() })
    }
}

/// The offset of `i` seconds, or the error of `offset_of`.
pub(crate) fn read_offset(i: i64) -> (r: Result<Offset<i32>, DeError>)
    ensures
        match offset_of(i as int) {
            Ok(o) => r matches Ok(x) && x.0 == o,
            Err(e) => r matches Err(x) && x@ == e,
        },
{
    if -2_147_483_648 <= i && i <= 2_147_483_647 && offset_valid(i as i32) {
        Ok(Offset(i as i32))
    } else {
        Err(DeError::InvalidValue { received: Unexpected::Signed(i), expected: owned("an offset value as i32 within [-86_400, 86_400]") })
    }
}

impl FromBolt for Offset<i32> {
    type Out = i32;

    open spec fn out(x: Offset<i32>) -> i32 {
        x.0
    }

    /// An offset reads an `i32` (an integer, or the nanoseconds of a
    /// date-time) of less than a day either way.
    open spec fn convert(v: Value) -> Result<i32, DeErrorModel> {
        match v {
            Value::Integer(_) | Value::DateTime(..) | Value::LocalDateTime(..) => match convert_integer(
                v,
                i32::MIN as int,
                i32::MAX as int,
                "i32"@,
            ) {
                Ok(i) => offset_of(i),
                Err(e) => Err(e),
            },
            _ => Err(invalid_type(v, offset_expected())),
        }
    }

    fn from_bolt(value: &BoltType) -> (r: Result<Offset<i32>, DeError>) {
        match value {
            BoltType::Integer(_) | BoltType::DateTime(_) | BoltType::LocalDateTime(_) => {
                match integer_within(value, -2_147_483_648, 2_147_483_647, "i32") {
                    Ok(i) => read_offset(i),
                    Err(e) => Err(e),
                }
            },
            _ => Err(DeError::InvalidType {
                received: value.unexpected(),
                expected: owned("an offset value as i32 within [-86_400, 86_400]"),
            }),
        }
    }
}

impl<T: FromBolt> FromBolt for Timezone<T> {
    type Out = T::Out;

    open spec fn out(x: Timezone<T>) -> T::Out {
        T::out(x.0)
    }

    open spec fn convert(v: Value) -> Result<T::Out, DeErrorModel> {
        match v {
            Value::DateTimeZoneId(_, _, tz_id) => T::convert(Value::String(tz_id)),
            _ => if is_element(v) {
                Err(not_a_part("struct `Timezone`"@))
            } else {
                T::convert(v)
            },
        }
    }

    fn from_bolt(value: &BoltType) -> (r: Result<Timezone<T>, DeError>) {
        let r = match value {
            BoltType::DateTimeZoneId(d) => T::from_bolt(&BoltType::String(BoltString { value: d.tz_id.value.clone() })),
            BoltType::Node(_) | BoltType::Relation(_) | BoltType::UnboundedRelation(_) | BoltType::Path(_) => {
                Err(
                    DeError::InvalidType {
                        received: Unexpected::Other(owned("struct `Timezone`")),
                        expected: owned(
                            "one of `Id`, `Labels`, `Type`, `StartNodeId`, `EndNodeId`, `Keys`, `Nodes`, `Relationships`, or `Indices`",
                        ),
                    },
                )
            },
            _ => T::from_bolt(value),
        };
        match r {
            Ok(t) => Ok(Timezone(t)),
            Err(e) => Err(e),
        }
    }
}

impl<T: FromBolt> FromBolt for Nodes<T> {
    type Out = Seq<T::Out>;

    open spec fn out(x: Nodes<T>) -> Seq<T::Out> {
        Vec::<T>::out(x.0)
    }

    open spec fn convert(v: Value) -> Result<Seq<T::Out>, DeErrorModel> {
        match v {
            Value::Path(nodes, _, _) => convert_items::<T>(nodes),
            Value::Node(..) | Value::Relation(..) | Value::UnboundedRelation(..) => Err(missing("nodes"@)),
            _ => Vec::<T>::convert(v),
        }
    }

    fn from_bolt(value: &BoltType) -> (r: Result<Nodes<T>, DeError>) {
        let r = match value {
            BoltType::Path(p) => convert_list(&p.nodes),
            BoltType::Node(_) | BoltType::Relation(_) | BoltType::UnboundedRelation(_) => Err(
                DeError::MissingField { field: "nodes" },
            ),
            _ => Vec::<T>::from_bolt(value),
        };
        match r {
            Ok(v) => Ok(Nodes(v)),
            Err(e) => Err(e),
        }
    }
}

impl<T: FromBolt> FromBolt for Relationships<T> {
    type Out = Seq<T::Out>;

    open spec fn out(x: Relationships<T>) -> Seq<T::Out> {
        Vec::<T>::out(x.0)
    }

    open spec fn convert(v: Value) -> Result<Seq<T::Out>, DeErrorModel> {
        match v {
            Value::Path(_, rels, _) => convert_items::<T>(rels),
            Value::Node(..) | Value::Relation(..) | Value::UnboundedRelation(..) => Err(missing("relationships"@)),
            _ => Vec::<T>::convert(v),
        }
    }

    fn from_bolt(value: &BoltType) -> (r: Result<Relationships<T>, DeError>) {
        let r = match value {
            BoltType::Path(p) => convert_list(&p.rels),
            BoltType::Node(_) | BoltType::Relation(_) | BoltType::UnboundedRelation(_) => Err(
                DeError::MissingField { field: "relationships" },
            ),
            _ => Vec::<T>::from_bolt(value),
        };
        match r {
            Ok(v) => Ok(Relationships(v)),
            Err(e) => Err(e),
        }
    }
}

impl<T: FromBolt> FromBolt for Indices<T> {
    type Out = Seq<T::Out>;

    open spec fn out(x: Indices<T>) -> Seq<T::Out> {
        Vec::<T>::out(x.0)
    }

    open spec fn convert(v: Value) -> Result<Seq<T::Out>, DeErrorModel> {
        match v {
            Value::Path(_, _, ids) => convert_items::<T>(ids),
            Value::Node(..) | Value::Relation(..) | Value::UnboundedRelation(..) => Err(missing("indices"@)),
            _ => Vec::<T>::convert(v),
        }
    }

    fn from_bolt(value: &BoltType) -> (r: Result<Indices<T>, DeError>) {
        let r = match value {
            BoltType::Path(p) => convert_list(&p.ids),
            BoltType::Node(_) | BoltType::Relation(_) | BoltType::UnboundedRelation(_) => Err(
                DeError::MissingField { field: "indices" },
            ),
            _ => Vec::<T>::from_bolt(value),
        };
        match r {
            Ok(v) => Ok(Indices(v)),
            Err(e) => Err(e),
        }
    }
}

impl BoltMap {
    /// The value of `key`, converted into `T`; a missing key is an error.
    pub fn get<T: FromBolt>(&self, key: &str) -> (r: Result<T, DeError>)
        requires
            self.wf(),
        ensures
            key_index(map_values(*self), key@) < 0 ==> (r matches Err(e) && e@ == DeErrorModel::NoSuchProperty),
            key_index(map_values(*self), key@) >= 0 ==> crate::convert::converted::<T>(
                map_values(*self)[key_index(map_values(*self), key@)].1,
                r,
            ),
    {
        proof {
            crate::facts::lemma_key_index(map_values(*self), key@);
        }
        match self.get_value(key) {
            Some(v) => v.to(),
            None => Err(DeError::NoSuchProperty),
        }
    }
}

/// The value of `key` in `props`, converted into `T`, if the key is there and
/// the conversion succeeds.
pub open spec fn property<T: FromBolt>(props: BoltMap, key: Seq<char>, r: Option<T>) -> bool {
    let i = key_index(map_values(props), key);
    if i < 0 {
        r is None
    } else {
        match T::convert(map_values(props)[i].1) {
            Ok(o) => r matches Some(x) && T::out(x) == o,
            Err(_) => r is None,
        }
    }
}

impl BoltNode {
    /// The property `key`, converted into `T`, if it is there and converts.
    pub fn get<T: FromBolt>(&self, key: &str) -> (r: Option<T>)
        requires
            self.properties.wf(),
        ensures
            property(self.properties, key@, r),
    {
        match self.properties.get(key) {
            Ok(x) => Some(x),
            Err(_) => None,
        }
    }
}

impl BoltRelation {
    /// The property `key`, converted into `T`, if it is there and converts.
    pub fn get<T: FromBolt>(&self, key: &str) -> (r: Option<T>)
        requires
            self.properties.wf(),
        ensures
            property(self.properties, key@, r),
    {
        match self.properties.get(key) {
            Ok(x) => Some(x),
            Err(_) => None,
        }
    }
}

impl BoltUnboundedRelation {
    /// The property `key`, converted into `T`, if it is there and converts.
    pub fn get<T: FromBolt>(&self, key: &str) -> (r: Option<T>)
        requires
            self.properties.wf(),
        ensures
            property(self.properties, key@, r),
    {
        match self.properties.get(key) {
            Ok(x) => Some(x),
            Err(_) => None,
        }
    }
}

impl BoltNode {
    /// Converts the node into `T`.
    pub fn to<T: FromBolt>(&self) -> (r: Result<T, DeError>)
        ensures
            crate::convert::converted::<T>(type_model(BoltType::Node(*self)), r),
    {
        T::from_bolt(&BoltType::Node(self.clone()))
    }
}

impl BoltRelation {
    /// Converts the relationship into `T`.
    pub fn to<T: FromBolt>(&self) -> (r: Result<T, DeError>)
        ensures
            crate::convert::converted::<T>(type_model(BoltType::Relation(*self)), r),
    {
        T::from_bolt(&BoltType::Relation(self.clone()))
    }
}

impl BoltUnboundedRelation {
    /// Converts the relationship into `T`.
    pub fn to<T: FromBolt>(&self) -> (r: Result<T, DeError>)
        ensures
            crate::convert::converted::<T>(type_model(BoltType::UnboundedRelation(*self)), r),
    {
        T::from_bolt(&BoltType::UnboundedRelation(self.clone()))
    }
}

impl BoltPath {
    /// Converts the path into `T`.
    pub fn to<T: FromBolt>(&self) -> (r: Result<T, DeError>)
        ensures
            crate::convert::converted::<T>(type_model(BoltType::Path(*self)), r),
    {
        T::from_bolt(&BoltType::Path(self.clone()))
    }
}

} // verus!
