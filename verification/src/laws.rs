//! What holds across the operations of the library.
use vstd::prelude::*;
use crate::buffer::be_u32;
use crate::convert::{convert_std_duration, FromBolt};
use crate::facts::{distinct_keys, lemma_key_index};
use crate::model::Value;
use crate::model::ErrorModel;
use crate::temporal::{
    local_read, local_value, nanos_of_time, offset_read, offset_value, time_of_day_exists, time_of_nanos, valid_timestamp,
    LocalDateTime, OffsetDateTime, TimeOfDay,
};
use crate::types::duration::total_seconds;
use crate::version::{supported_versions, version_of};
use crate::roundtrip::{faithful, lemma_dict_read_back, lemma_faithful_entries};
use crate::types::{map_values, BoltMap};
use crate::wire::{decode_dict, encode_dict, key_index, map_put, Decoding};
use crate::builder::SetOnce;
use crate::de::DeErrorModel;
use crate::extract::{Offset, Timezone, EndNodeId, Id, Indices, Keys, Labels, Nodes, Relationships, StartNodeId, Type};
use crate::convert::convert_items;
use crate::fields::{
    date_time_field_read, duration_field_read, point_field_read, BoltPointBuilder, DateTimeIsh, DateTimeIshBuilder,
    DurationBuilder, DurationFields, Fields, PointFields,
};
use crate::de::DeError;
use crate::types::{
    list_values, type_model, BoltDate, BoltFloat, BoltInteger, BoltPath, BoltString, BoltDateTime, BoltDateTimeZoneId, BoltLocalDateTime, BoltLocalTime, BoltNode, BoltRelation,
    BoltTime, BoltType, BoltUnboundedRelation,
};

verus! {

/// The value stored under `k`, if the entries have one.
pub open spec fn lookup<V>(m: Seq<(Seq<char>, V)>, k: Seq<char>) -> Option<V> {
    let i = key_index(m, k);
    if i < 0 {
        None
    } else {
        Some(m[i].1)
    }
}

/// After putting `v` under `k`, reading `k` gives `v`.
pub proof fn law_put_then_get<V>(m: Seq<(Seq<char>, V)>, k: Seq<char>, v: V)
    ensures
        lookup(map_put(m, k, v), k) == Some(v),
{
    lemma_key_index(m, k);
    let r = map_put(m, k, v);
    lemma_key_index(r, k);
    if key_index(m, k) < 0 {
        assert(r[m.len() as int].0 == k);
    } else {
        assert(r[key_index(m, k)].0 == k);
    }
}

/// Putting under `k` leaves what every other key reads unchanged.
pub proof fn law_put_keeps_other_keys<V>(m: Seq<(Seq<char>, V)>, k: Seq<char>, v: V, other: Seq<char>)
    requires
        other != k,
    ensures
        lookup(map_put(m, k, v), other) == lookup(m, other),
{
    lemma_key_index(m, k);
    lemma_key_index(m, other);
    let r = map_put(m, k, v);
    lemma_key_index(r, other);
    let i = key_index(m, other);
    let j = key_index(r, other);
    if i >= 0 {
        assert(r[i].0 == other);
        assert(j == i);
    } else {
        assert forall|x: int| 0 <= x < r.len() implies r[x].0 != other by {
            if x < m.len() {
                assert(m[x].0 != other);
            }
        }
    }
}

/// Putting a key that is already there keeps the number of entries; a new
/// key adds one entry.
pub proof fn law_put_len<V>(m: Seq<(Seq<char>, V)>, k: Seq<char>, v: V)
    ensures
        map_put(m, k, v).len() == m.len() + if lookup(m, k) is Some { 0int } else { 1int },
{
    lemma_key_index(m, k);
}

/// Putting an entry keeps the keys of a map distinct.
pub proof fn law_put_keeps_keys_distinct<V>(m: Seq<(Seq<char>, V)>, k: Seq<char>, v: V)
    requires
        distinct_keys(m),
    ensures
        distinct_keys(map_put(m, k, v)),
{
    lemma_key_index(m, k);
}

/// An integer value converts back into the `i64` it was made from.
pub proof fn law_integer_round_trip(i: i64)
    ensures
        <i64 as FromBolt>::convert(Value::Integer(i)) == Ok::<int, crate::de::DeErrorModel>(i as int),
{
}

/// A boolean value converts back into the `bool` it was made from.
pub proof fn law_boolean_round_trip(b: bool)
    ensures
        <bool as FromBolt>::convert(Value::Boolean(b)) == Ok::<bool, crate::de::DeErrorModel>(b),
{
}

/// A string value converts back into the string it was made from.
pub proof fn law_string_round_trip(s: Seq<char>)
    ensures
        <String as FromBolt>::convert(Value::String(s)) == Ok::<Seq<char>, DeErrorModel>(s),
{
}

/// A duration made from a `std::time::Duration` of whole seconds `secs`
/// and nanoseconds `nanos` (less than a second, as in every such duration)
/// converts back into the same seconds and nanoseconds, as long as the
/// seconds fit an `i64`.
pub proof fn law_std_duration_round_trip(secs: u64, nanos: u32)
    requires
        secs <= i64::MAX,
        nanos < 1_000_000_000,
    ensures
        convert_std_duration(Value::Duration(0, 0, secs as i64, nanos as i64)) == Ok::<(u64, u32), crate::de::DeErrorModel>(
            (secs, nanos),
        ),
{
    assert(total_seconds(0, 0, secs as i64) == secs as i64);
}

/// The four bytes at slot `i` of a handshake proposal.
pub open spec fn slot(s: Seq<u8>, i: int) -> [u8; 4] {
    [s[4 * i], s[4 * i + 1], s[4 * i + 2], s[4 * i + 3]]
}

/// The server answering with any of the versions the client proposes is
/// understood as that version.
pub proof fn law_proposed_versions_accepted(i: int)
    requires
        0 <= i < 4,
    ensures
        version_of(slot(supported_versions(), i)) is Ok,
{
    let s = supported_versions();
    let a = be_u32(0x0404);
    let b = be_u32(0x0304);
    let c = be_u32(0x0104);
    let d = be_u32(0x0004);
    let z = be_u32(0);
    assert(s =~= a + b + c + d + z + z);
    assert((0x0404u32 >> 24u32) as u8 == 0 && (0x0404u32 >> 16u32) as u8 == 0 && (0x0404u32 >> 8u32) as u8 == 4
        && 0x0404u32 as u8 == 4) by (bit_vector);
    assert((0x0304u32 >> 24u32) as u8 == 0 && (0x0304u32 >> 16u32) as u8 == 0 && (0x0304u32 >> 8u32) as u8 == 3
        && 0x0304u32 as u8 == 4) by (bit_vector);
    assert((0x0104u32 >> 24u32) as u8 == 0 && (0x0104u32 >> 16u32) as u8 == 0 && (0x0104u32 >> 8u32) as u8 == 1
        && 0x0104u32 as u8 == 4) by (bit_vector);
    assert((0x0004u32 >> 24u32) as u8 == 0 && (0x0004u32 >> 16u32) as u8 == 0 && (0x0004u32 >> 8u32) as u8 == 0
        && 0x0004u32 as u8 == 4) by (bit_vector);
    assert(s[4 * i] == 0 && s[4 * i + 1] == 0 && s[4 * i + 3] == 4);
}

/// A time of day (no leap second) made into nanoseconds since midnight
/// reads back as the same time of day.
pub proof fn law_time_of_day_round_trip(t: TimeOfDay)
    requires
        t.seconds < 86_400,
        t.nanoseconds < 1_000_000_000,
    ensures
        time_of_nanos(nanos_of_time(t) as i64) == t,
        time_of_day_exists(time_of_nanos(nanos_of_time(t) as i64).seconds, time_of_nanos(nanos_of_time(t) as i64).nanoseconds),
{
    let n = nanos_of_time(t);
    assert(n / 1_000_000_000 == t.seconds && n % 1_000_000_000 == t.nanoseconds) by (nonlinear_arith)
        requires
            n == t.seconds * 1_000_000_000 + t.nanoseconds,
            t.nanoseconds < 1_000_000_000,
    ;
    assert(0 <= n < 86_400 * 1_000_000_000) by (nonlinear_arith)
        requires
            n == t.seconds * 1_000_000_000 + t.nanoseconds,
            t.nanoseconds < 1_000_000_000,
            t.seconds < 86_400,
    ;
}

/// A local date and time made into a value (`BoltLocalDateTime::from_local`)
/// reads back (`try_to_chrono`) as itself where `chrono` holds it.
pub proof fn law_local_date_time_round_trip(l: LocalDateTime)
    requires
        valid_timestamp(l.seconds, l.nanoseconds),
    ensures
        local_read(local_value(l)) == Ok::<LocalDateTime, ErrorModel>(l),
{
}

/// A date and time with an offset of less than a day made into a value
/// (`BoltDateTime::from_offset`) reads back (`try_to_chrono`) as the same
/// instant and offset where `chrono` holds it.
pub proof fn law_offset_date_time_round_trip(o: OffsetDateTime)
    requires
        i64::MIN <= o.seconds + o.offset_seconds <= i64::MAX,
        -86_400 < o.offset_seconds < 86_400,
        valid_timestamp(o.seconds, o.nanoseconds),
    ensures
        offset_read(offset_value(o)) == Ok::<OffsetDateTime, ErrorModel>(o),
{
}

/// A well-formed map whose values each read back (strings, for instance)
/// is read back from its encoding (`into_bytes`, then `parse`) as itself,
/// whatever follows it.
pub proof fn law_map_read_back(m: BoltMap, rest: Seq<u8>)
    requires
        m.wf(),
        forall|i: int| 0 <= i < map_values(m).len() ==> faithful(#[trigger] map_values(m)[i].1),
        encode_dict(map_values(m)) is Ok,
    ensures
        decode_dict(encode_dict(map_values(m))->Ok_0 + rest) == Decoding::Done(
            map_values(m),
            encode_dict(map_values(m))->Ok_0.len(),
        ),
{
    m.lemma_distinct_keys();
    lemma_faithful_entries(map_values(m));
    lemma_dict_read_back(map_values(m), rest);
}

/// A well-formed map of string values is read back from its encoding as
/// itself, whatever follows it.
pub proof fn law_string_map_read_back(m: BoltMap, rest: Seq<u8>)
    requires
        m.wf(),
        forall|i: int| 0 <= i < map_values(m).len() ==> (#[trigger] map_values(m)[i].1) is String,
        encode_dict(map_values(m)) is Ok,
    ensures
        decode_dict(encode_dict(map_values(m))->Ok_0 + rest) == Decoding::Done(
            map_values(m),
            encode_dict(map_values(m))->Ok_0.len(),
        ),
{
    assert forall|i: int| 0 <= i < map_values(m).len() implies faithful(#[trigger] map_values(m)[i].1) by {
        assert(map_values(m)[i].1 is String);
    }
    law_map_read_back(m, rest);
}

/// A relationship is read part by part from the fields of the same name:
/// its id from `id`, the id of its start node from `start_node_id` and the
/// id of its end node from `end_node_id`, each where it is not negative
/// (an id is unsigned) and refused where it is.
pub proof fn law_relation_parts(r: BoltRelation)
    ensures
        r.id.value >= 0 ==> <Id as FromBolt>::convert(type_model(BoltType::Relation(r))) == Ok::<int, DeErrorModel>(
            r.id.value as int,
        ),
        r.start_node_id.value >= 0 ==> <StartNodeId as FromBolt>::convert(type_model(BoltType::Relation(r)))
            == Ok::<int, DeErrorModel>(r.start_node_id.value as int),
        r.end_node_id.value >= 0 ==> <EndNodeId as FromBolt>::convert(type_model(BoltType::Relation(r)))
            == Ok::<int, DeErrorModel>(r.end_node_id.value as int),
        r.id.value < 0 ==> <Id as FromBolt>::convert(type_model(BoltType::Relation(r))) is Err,
        r.start_node_id.value < 0 ==> <StartNodeId as FromBolt>::convert(type_model(BoltType::Relation(r))) is Err,
        r.end_node_id.value < 0 ==> <EndNodeId as FromBolt>::convert(type_model(BoltType::Relation(r))) is Err,
{
}

/// The id of a node, and of a relationship without end points, is read from
/// its `id` field; neither has a start or an end node.
pub proof fn law_node_parts(n: BoltNode, u: BoltUnboundedRelation)
    ensures
        n.id.value >= 0 ==> <Id as FromBolt>::convert(type_model(BoltType::Node(n))) == Ok::<int, DeErrorModel>(
            n.id.value as int,
        ),
        u.id.value >= 0 ==> <Id as FromBolt>::convert(type_model(BoltType::UnboundedRelation(u)))
            == Ok::<int, DeErrorModel>(u.id.value as int),
        <StartNodeId as FromBolt>::convert(type_model(BoltType::Node(n))) is Err,
        <EndNodeId as FromBolt>::convert(type_model(BoltType::Node(n))) is Err,
        <StartNodeId as FromBolt>::convert(type_model(BoltType::UnboundedRelation(u))) is Err,
        <EndNodeId as FromBolt>::convert(type_model(BoltType::UnboundedRelation(u))) is Err,
{
}

/// The other parts of graph elements come from the fields of the same
/// name: the labels of a node from its labels, the type of a relationship
/// from its type, the property keys from the keys of the properties (in
/// their order), and the nodes, relationships and indices of a path from
/// its nodes, relationships and indices.
pub proof fn law_element_parts<C: FromBolt>(n: BoltNode, r: BoltRelation, u: BoltUnboundedRelation, p: BoltPath)
    ensures
        <Labels<C> as FromBolt>::convert(type_model(BoltType::Node(n))) == C::convert(Value::List(list_values(n.labels))),
        <Type<C> as FromBolt>::convert(type_model(BoltType::Relation(r))) == C::convert(Value::String(r.typ.value@)),
        <Type<C> as FromBolt>::convert(type_model(BoltType::UnboundedRelation(u))) == C::convert(
            Value::String(u.typ.value@),
        ),
        <Keys<C> as FromBolt>::convert(type_model(BoltType::Node(n))) == C::convert(
            Value::List(Seq::new(map_values(n.properties).len(), |i: int| Value::String(map_values(n.properties)[i].0))),
        ),
        <Keys<C> as FromBolt>::convert(type_model(BoltType::Relation(r))) == C::convert(
            Value::List(Seq::new(map_values(r.properties).len(), |i: int| Value::String(map_values(r.properties)[i].0))),
        ),
        <Keys<C> as FromBolt>::convert(type_model(BoltType::UnboundedRelation(u))) == C::convert(
            Value::List(Seq::new(map_values(u.properties).len(), |i: int| Value::String(map_values(u.properties)[i].0))),
        ),
        <Nodes<C> as FromBolt>::convert(type_model(BoltType::Path(p))) == convert_items::<C>(list_values(p.nodes)),
        <Relationships<C> as FromBolt>::convert(type_model(BoltType::Path(p))) == convert_items::<C>(list_values(p.rels)),
        <Indices<C> as FromBolt>::convert(type_model(BoltType::Path(p))) == convert_items::<C>(list_values(p.ids)),
{
    let kn = Seq::new(map_values(n.properties).len(), |i: int| Value::String(map_values(n.properties)[i].0));
    let kr = Seq::new(map_values(r.properties).len(), |i: int| Value::String(map_values(r.properties)[i].0));
    let ku = Seq::new(map_values(u.properties).len(), |i: int| Value::String(map_values(u.properties)[i].0));
    assert(crate::extract::key_values(map_values(n.properties)) =~= kn);
    assert(crate::extract::key_values(map_values(r.properties)) =~= kr);
    assert(crate::extract::key_values(map_values(u.properties)) =~= ku);
}

/// A list read as a `Vec` gives element `i` of the vector from element `i`
/// of the list, every element read in turn; where elements cannot be read,
/// the error is that of the first of them (`k`).
pub proof fn law_list_elements_in_order<T: FromBolt>(items: Seq<Value>, k: int)
    ensures
        (forall|i: int| 0 <= i < items.len() ==> T::convert(#[trigger] items[i]) is Ok) ==> <Vec<T> as FromBolt>::convert(
            Value::List(items),
        ) == Ok::<Seq<T::Out>, DeErrorModel>(Seq::new(items.len(), |i: int| T::convert(items[i])->Ok_0)),
        0 <= k < items.len() && T::convert(items[k]) is Err && (forall|j: int| 0 <= j < k ==> T::convert(#[trigger] items[j]) is Ok)
            ==> <Vec<T> as FromBolt>::convert(Value::List(items)) == Err::<Seq<T::Out>, DeErrorModel>(
            T::convert(items[k])->Err_0,
        ),
    decreases items.len(),
{
    if items.len() > 0 {
        let rest = items.subrange(1, items.len() as int);
        law_list_elements_in_order::<T>(rest, k - 1);
        if forall|i: int| 0 <= i < items.len() ==> T::convert(#[trigger] items[i]) is Ok {
            assert(T::convert(items[0]) is Ok);
            assert forall|i: int| 0 <= i < rest.len() implies T::convert(#[trigger] rest[i]) is Ok by {
                assert(rest[i] == items[i + 1]);
            }
            let whole = Seq::new(items.len(), |i: int| T::convert(items[i])->Ok_0);
            let tail = Seq::new(rest.len(), |i: int| T::convert(rest[i])->Ok_0);
            assert(whole =~= seq![T::convert(items[0])->Ok_0] + tail);
        }
        if 0 < k < items.len() && T::convert(items[k]) is Err && (forall|j: int|
            0 <= j < k ==> T::convert(#[trigger] items[j]) is Ok) {
            assert(T::convert(items[0]) is Ok);
            assert(rest[k - 1] == items[k]);
            assert forall|j: int| 0 <= j < k - 1 implies T::convert(#[trigger] rest[j]) is Ok by {
                assert(rest[j] == items[j + 1]);
            }
        }
    } else {
        assert(Seq::new(0, |i: int| T::convert(items[i])->Ok_0) =~= Seq::<T::Out>::empty());
    }
}

/// An integer reads as an integer type exactly when it lies in the range of
/// that type, and then as itself; out of range it is refused as out of
/// bounds.
pub proof fn law_integer_ranges(i: i64)
    ensures
        <i8 as FromBolt>::convert(Value::Integer(i)) == if i8::MIN <= i <= i8::MAX {
            Ok::<int, DeErrorModel>(i as int)
        } else {
            Err(DeErrorModel::IntegerOutOfBounds(i, "i8"@))
        },
        <i16 as FromBolt>::convert(Value::Integer(i)) == if i16::MIN <= i <= i16::MAX {
            Ok::<int, DeErrorModel>(i as int)
        } else {
            Err(DeErrorModel::IntegerOutOfBounds(i, "i16"@))
        },
        <i32 as FromBolt>::convert(Value::Integer(i)) == if i32::MIN <= i <= i32::MAX {
            Ok::<int, DeErrorModel>(i as int)
        } else {
            Err(DeErrorModel::IntegerOutOfBounds(i, "i32"@))
        },
        <u8 as FromBolt>::convert(Value::Integer(i)) == if 0 <= i <= u8::MAX {
            Ok::<int, DeErrorModel>(i as int)
        } else {
            Err(DeErrorModel::IntegerOutOfBounds(i, "u8"@))
        },
        <u16 as FromBolt>::convert(Value::Integer(i)) == if 0 <= i <= u16::MAX {
            Ok::<int, DeErrorModel>(i as int)
        } else {
            Err(DeErrorModel::IntegerOutOfBounds(i, "u16"@))
        },
        <u32 as FromBolt>::convert(Value::Integer(i)) == if 0 <= i <= u32::MAX {
            Ok::<int, DeErrorModel>(i as int)
        } else {
            Err(DeErrorModel::IntegerOutOfBounds(i, "u32"@))
        },
        <u64 as FromBolt>::convert(Value::Integer(i)) == if 0 <= i {
            Ok::<int, DeErrorModel>(i as int)
        } else {
            Err(DeErrorModel::IntegerOutOfBounds(i, "u64"@))
        },
{
}

/// A null reads as no value; any other value reads as some value, or fails,
/// as it reads without the option.
pub proof fn law_option_of_value<T: FromBolt>(v: Value)
    ensures
        v is Null ==> <Option<T> as FromBolt>::convert(v) == Ok::<Option<T::Out>, DeErrorModel>(None),
        !(v is Null) && T::convert(v) is Ok ==> <Option<T> as FromBolt>::convert(v) == Ok::<Option<T::Out>, DeErrorModel>(
            Some(T::convert(v)->Ok_0),
        ),
        !(v is Null) && T::convert(v) is Err ==> <Option<T> as FromBolt>::convert(v) == Err::<Option<T::Out>, DeErrorModel>(
            T::convert(v)->Err_0,
        ),
{
}

/// A list of two read as a pair gives the pair of its elements read in
/// list order; where an element cannot be read, the first such error.
pub proof fn law_list_as_pair<A: FromBolt, B: FromBolt>(items: Seq<Value>)
    requires
        items.len() == 2,
    ensures
        A::convert(items[0]) is Ok && B::convert(items[1]) is Ok ==> <(A, B) as FromBolt>::convert(
            Value::List(items),
        ) == Ok::<(A::Out, B::Out), DeErrorModel>((A::convert(items[0])->Ok_0, B::convert(items[1])->Ok_0)),
        A::convert(items[0]) matches Err(e) ==> <(A, B) as FromBolt>::convert(Value::List(items)) == Err::<
            (A::Out, B::Out),
            DeErrorModel,
        >(e),
        A::convert(items[0]) is Ok && B::convert(items[1]) is Err ==> <(A, B) as FromBolt>::convert(
            Value::List(items),
        ) == Err::<(A::Out, B::Out), DeErrorModel>(B::convert(items[1])->Err_0),
{
}

/// A list of three read as a triple gives element `i` of the triple from
/// element `i` of the list; where an element cannot be read, the first
/// such error.
pub proof fn law_list_as_triple<A: FromBolt, B: FromBolt, C: FromBolt>(items: Seq<Value>)
    requires
        items.len() == 3,
    ensures
        A::convert(items[0]) is Ok && B::convert(items[1]) is Ok && C::convert(items[2]) is Ok
            ==> <(A, B, C) as FromBolt>::convert(Value::List(items)) == Ok::<(A::Out, B::Out, C::Out), DeErrorModel>(
            (A::convert(items[0])->Ok_0, B::convert(items[1])->Ok_0, C::convert(items[2])->Ok_0),
        ),
        A::convert(items[0]) matches Err(e) ==> <(A, B, C) as FromBolt>::convert(Value::List(items)) == Err::<
            (A::Out, B::Out, C::Out),
            DeErrorModel,
        >(e),
        A::convert(items[0]) is Ok && B::convert(items[1]) is Err ==> <(A, B, C) as FromBolt>::convert(
            Value::List(items),
        ) == Err::<(A::Out, B::Out, C::Out), DeErrorModel>(B::convert(items[1])->Err_0),
        A::convert(items[0]) is Ok && B::convert(items[1]) is Ok && C::convert(items[2]) is Err
            ==> <(A, B, C) as FromBolt>::convert(Value::List(items)) == Err::<(A::Out, B::Out, C::Out), DeErrorModel>(C::convert(items[2])->Err_0),
{
}

/// A list of four read as a tuple of four gives element `i` of the tuple
/// from element `i` of the list; where an element cannot be read, the first
/// such error.
pub proof fn law_list_as_quadruple<A: FromBolt, B: FromBolt, C: FromBolt, D: FromBolt>(items: Seq<Value>)
    requires
        items.len() == 4,
    ensures
        A::convert(items[0]) is Ok && B::convert(items[1]) is Ok && C::convert(items[2]) is Ok
            && D::convert(items[3]) is Ok ==> <(A, B, C, D) as FromBolt>::convert(Value::List(items)) == Ok::<
            (A::Out, B::Out, C::Out, D::Out),
            DeErrorModel,
        >((A::convert(items[0])->Ok_0, B::convert(items[1])->Ok_0, C::convert(items[2])->Ok_0, D::convert(items[3])->Ok_0)),
        A::convert(items[0]) matches Err(e) ==> <(A, B, C, D) as FromBolt>::convert(Value::List(items)) == Err::<
            (A::Out, B::Out, C::Out, D::Out),
            DeErrorModel,
        >(e),
        A::convert(items[0]) is Ok && B::convert(items[1]) is Err ==> <(A, B, C, D) as FromBolt>::convert(
            Value::List(items),
        ) == Err::<(A::Out, B::Out, C::Out, D::Out), DeErrorModel>(B::convert(items[1])->Err_0),
        A::convert(items[0]) is Ok && B::convert(items[1]) is Ok && C::convert(items[2]) is Err
            ==> <(A, B, C, D) as FromBolt>::convert(Value::List(items)) == Err::<
            (A::Out, B::Out, C::Out, D::Out),
            DeErrorModel,
        >(C::convert(items[2])->Err_0),
        A::convert(items[0]) is Ok && B::convert(items[1]) is Ok && C::convert(items[2]) is Ok && D::convert(items[3]) is Err
            ==> <(A, B, C, D) as FromBolt>::convert(Value::List(items)) == Err::<
            (A::Out, B::Out, C::Out, D::Out),
            DeErrorModel,
        >(D::convert(items[3])->Err_0),
{
}

/// A list whose length is not that of the tuple is refused.
pub proof fn law_list_of_other_length<A: FromBolt, B: FromBolt, C: FromBolt, D: FromBolt>(items: Seq<Value>)
    ensures
        items.len() != 2 ==> <(A, B) as FromBolt>::convert(Value::List(items)) is Err,
        items.len() != 3 ==> <(A, B, C) as FromBolt>::convert(Value::List(items)) is Err,
        items.len() != 4 ==> <(A, B, C, D) as FromBolt>::convert(Value::List(items)) is Err,
{
}

/// The coordinates of a point read as a tuple in the order x, y (and z): a
/// pair is `(x, y)`; a triple is `(sr_id, x, y)` in two dimensions and
/// `(x, y, z)` in three; a tuple of four is `(sr_id, x, y, z)`.
pub proof fn law_point_as_tuple<A: FromBolt, B: FromBolt, C: FromBolt, D: FromBolt>(
    sr_id: i64,
    x: u64,
    y: u64,
    z: u64,
)
    ensures
        ({
            let (a, b) = (A::convert(Value::Float(x)), B::convert(Value::Float(y)));
            a is Ok && b is Ok ==> {
                &&& <(A, B) as FromBolt>::convert(Value::Point2D(sr_id, x, y)) == Ok::<(A::Out, B::Out), DeErrorModel>(
                    (a->Ok_0, b->Ok_0),
                )
                &&& <(A, B) as FromBolt>::convert(Value::Point3D(sr_id, x, y, z)) == Ok::<(A::Out, B::Out), DeErrorModel>(
                    (a->Ok_0, b->Ok_0),
                )
            }
        }),
        ({
            let (a, b, c) = (A::convert(Value::Integer(sr_id)), B::convert(Value::Float(x)), C::convert(Value::Float(y)));
            a is Ok && b is Ok && c is Ok ==> <(A, B, C) as FromBolt>::convert(Value::Point2D(sr_id, x, y)) == Ok::<
                (A::Out, B::Out, C::Out),
                DeErrorModel,
            >((a->Ok_0, b->Ok_0, c->Ok_0))
        }),
        ({
            let (a, b, c) = (A::convert(Value::Float(x)), B::convert(Value::Float(y)), C::convert(Value::Float(z)));
            a is Ok && b is Ok && c is Ok ==> <(A, B, C) as FromBolt>::convert(Value::Point3D(sr_id, x, y, z)) == Ok::<
                (A::Out, B::Out, C::Out),
                DeErrorModel,
            >((a->Ok_0, b->Ok_0, c->Ok_0))
        }),
        ({
            let (a, b, c, d) = (
                A::convert(Value::Integer(sr_id)),
                B::convert(Value::Float(x)),
                C::convert(Value::Float(y)),
                D::convert(Value::Float(z)),
            );
            a is Ok && b is Ok && c is Ok && d is Ok ==> <(A, B, C, D) as FromBolt>::convert(
                Value::Point3D(sr_id, x, y, z),
            ) == Ok::<(A::Out, B::Out, C::Out, D::Out), DeErrorModel>((a->Ok_0, b->Ok_0, c->Ok_0, d->Ok_0))
        }),
{
}

/// A temporal value built from the slots of its fields takes each field
/// from the slot of the same name, and is built exactly when each slot it
/// needs is filled; building empties those slots and keeps the others.
pub proof fn law_temporal_fields_taken(b: DateTimeIshBuilder)
    ensures
        (b.nanoseconds is Filled && b.tz_offset_seconds is Filled) <==> BoltTime::build_result(b) is Ok,
        BoltTime::build_result(b) is Ok ==> {
            let t = BoltTime::build_result(b)->Ok_0;
            &&& b.nanoseconds == SetOnce::Filled(t.nanoseconds)
            &&& b.tz_offset_seconds == SetOnce::Filled(t.tz_offset_seconds)
        },
        (b.nanoseconds is Filled) <==> BoltLocalTime::build_result(b) is Ok,
        BoltLocalTime::build_result(b) is Ok ==> b.nanoseconds == SetOnce::Filled(
            BoltLocalTime::build_result(b)->Ok_0.nanoseconds,
        ),
        (b.days is Filled) <==> BoltDate::build_result(b) is Ok,
        BoltDate::build_result(b) is Ok ==> b.days == SetOnce::Filled(BoltDate::build_result(b)->Ok_0.days),
        (b.seconds is Filled && b.nanoseconds is Filled && b.tz_offset_seconds is Filled)
            <==> BoltDateTime::build_result(b) is Ok,
        BoltDateTime::build_result(b) is Ok ==> {
            let t = BoltDateTime::build_result(b)->Ok_0;
            &&& b.seconds == SetOnce::Filled(t.seconds)
            &&& b.nanoseconds == SetOnce::Filled(t.nanoseconds)
            &&& b.tz_offset_seconds == SetOnce::Filled(t.tz_offset_seconds)
        },
        (b.seconds is Filled && b.nanoseconds is Filled) <==> BoltLocalDateTime::build_result(b) is Ok,
        BoltLocalDateTime::build_result(b) is Ok ==> {
            let t = BoltLocalDateTime::build_result(b)->Ok_0;
            &&& b.seconds == SetOnce::Filled(t.seconds)
            &&& b.nanoseconds == SetOnce::Filled(t.nanoseconds)
        },
        (b.seconds is Filled && b.nanoseconds is Filled && b.tz_id is Filled) <==> BoltDateTimeZoneId::build_result(b) is Ok,
        BoltDateTimeZoneId::build_result(b) is Ok ==> {
            let t = BoltDateTimeZoneId::build_result(b)->Ok_0;
            &&& b.seconds == SetOnce::Filled(t.seconds)
            &&& b.nanoseconds == SetOnce::Filled(t.nanoseconds)
            &&& b.tz_id == SetOnce::Filled(t.tz_id)
        },
        ({
            let r = BoltTime::build_rest(b);
            r.nanoseconds is Empty && r.tz_offset_seconds is Empty && r.seconds == b.seconds && r.tz_id == b.tz_id
                && r.days == b.days
        }),
        ({
            let r = BoltLocalTime::build_rest(b);
            r.nanoseconds is Empty && r.seconds == b.seconds && r.tz_offset_seconds == b.tz_offset_seconds && r.tz_id
                == b.tz_id && r.days == b.days
        }),
        ({
            let r = BoltDate::build_rest(b);
            r.days is Empty && r.seconds == b.seconds && r.nanoseconds == b.nanoseconds && r.tz_offset_seconds
                == b.tz_offset_seconds && r.tz_id == b.tz_id
        }),
        ({
            let r = BoltDateTime::build_rest(b);
            r.seconds is Empty && r.nanoseconds is Empty && r.tz_offset_seconds is Empty && r.tz_id == b.tz_id && r.days
                == b.days
        }),
        ({
            let r = BoltLocalDateTime::build_rest(b);
            r.seconds is Empty && r.nanoseconds is Empty && r.tz_offset_seconds == b.tz_offset_seconds && r.tz_id
                == b.tz_id && r.days == b.days
        }),
        ({
            let r = BoltDateTimeZoneId::build_rest(b);
            r.seconds is Empty && r.nanoseconds is Empty && r.tz_id is Empty && r.tz_offset_seconds
                == b.tz_offset_seconds && r.days == b.days
        }),
{
}

/// A duration read as a `time::Duration` keeps its length: its whole
/// seconds and nanoseconds make, together, the duration's seconds (months
/// and days included) and nanoseconds, with the nanoseconds of the sign
/// of the seconds and less than a second either way. It is read exactly
/// when its nanoseconds are less than a second either way.
pub proof fn law_signed_duration_length(months: i64, days: i64, seconds: i64, nanoseconds: i64)
    ensures
        <time::Duration as FromBolt>::convert(Value::Duration(months, days, seconds, nanoseconds)) is Ok
            <==> -1_000_000_000 < nanoseconds < 1_000_000_000,
        <time::Duration as FromBolt>::convert(Value::Duration(months, days, seconds, nanoseconds)) is Ok ==> {
            let (whole, sub) = <time::Duration as FromBolt>::convert(
                Value::Duration(months, days, seconds, nanoseconds),
            )->Ok_0;
            &&& whole * 1_000_000_000 + sub == total_seconds(months, days, seconds) * 1_000_000_000 + nanoseconds
            &&& -1_000_000_000 < sub < 1_000_000_000
            &&& whole > 0 ==> sub >= 0
            &&& whole < 0 ==> sub <= 0
        },
{
}

/// A duration read as a `std::time::Duration` keeps its length: its whole
/// seconds and nanoseconds (less than a second) make, together, the
/// duration's seconds (months and days included) and nanoseconds.
pub proof fn law_std_duration_length(months: i64, days: i64, seconds: i64, nanoseconds: i64)
    ensures
        <std::time::Duration as FromBolt>::convert(Value::Duration(months, days, seconds, nanoseconds)) is Ok ==> {
            let (whole, sub) = <std::time::Duration as FromBolt>::convert(
                Value::Duration(months, days, seconds, nanoseconds),
            )->Ok_0;
            &&& whole * 1_000_000_000 + sub == total_seconds(months, days, seconds) * 1_000_000_000 + nanoseconds
            &&& sub < 1_000_000_000
        },
        total_seconds(months, days, seconds) >= 0 && 0 <= nanoseconds < 1_000_000_000
            ==> <std::time::Duration as FromBolt>::convert(Value::Duration(months, days, seconds, nanoseconds)) is Ok,
{
    let secs = total_seconds(months, days, seconds);
    if secs >= 0 && 0 <= nanoseconds <= u32::MAX {
        let q = nanoseconds / 1_000_000_000;
        let r = nanoseconds % 1_000_000_000;
        assert(q * 1_000_000_000 + r == nanoseconds && 0 <= r < 1_000_000_000) by (nonlinear_arith)
            requires
                q == nanoseconds / 1_000_000_000,
                r == nanoseconds % 1_000_000_000,
        ;
        if 0 <= nanoseconds < 1_000_000_000 {
            assert(q == 0) by (nonlinear_arith)
                requires
                    q == nanoseconds / 1_000_000_000,
                    0 <= nanoseconds < 1_000_000_000,
            ;
        }
    }
}

/// The slot `after` is the slot `before` once the field `field` is read
/// into it: an empty slot takes what `read` read (or stays empty on a read
/// error), and a filled one is kept and the field refused as repeated.
pub open spec fn filled_once<T, F: FnOnce() -> Result<T, DeError>>(
    before: SetOnce<T>,
    after: SetOnce<T>,
    read: F,
    r: Result<(), DeError>,
    field: Seq<char>,
) -> bool {
    &&& before is Empty && r is Ok ==> after is Filled && read.ensures((), Ok(after->0))
    &&& before is Empty && r is Err ==> after is Empty && read.ensures((), Err(r->Err_0))
    &&& before is Filled ==> after == before && r is Err && r->Err_0@ == DeErrorModel::DuplicateField { field }
}

/// Reading a field of a temporal value goes into the slot of the same name
/// and leaves the other slots as they were.
pub proof fn law_date_time_field_slots<FI, FS>(
    before: DateTimeIshBuilder,
    after: DateTimeIshBuilder,
    key: Fields,
    read_int: FI,
    read_str: FS,
    r: Result<(), DeError>,
)
    where
        FI: FnOnce() -> Result<BoltInteger, DeError>,
        FS: FnOnce() -> Result<BoltString, DeError>,
    requires
        date_time_field_read(before, after, key, read_int, read_str, r),
    ensures
        key is Seconds ==> filled_once(before.seconds, after.seconds, read_int, r, "seconds"@) && after.nanoseconds
            == before.nanoseconds && after.tz_offset_seconds == before.tz_offset_seconds && after.tz_id == before.tz_id
            && after.days == before.days,
        key is NanoSeconds ==> filled_once(before.nanoseconds, after.nanoseconds, read_int, r, "nanoseconds"@)
            && after.seconds == before.seconds && after.tz_offset_seconds == before.tz_offset_seconds && after.tz_id
            == before.tz_id && after.days == before.days,
        key is TzOffsetSeconds ==> filled_once(
            before.tz_offset_seconds,
            after.tz_offset_seconds,
            read_int,
            r,
            "tz_offset_seconds"@,
        ) && after.seconds == before.seconds && after.nanoseconds == before.nanoseconds && after.tz_id == before.tz_id
            && after.days == before.days,
        key is TzInfo ==> filled_once(before.tz_id, after.tz_id, read_str, r, "tz_id"@) && after.seconds == before.seconds
            && after.nanoseconds == before.nanoseconds && after.tz_offset_seconds == before.tz_offset_seconds
            && after.days == before.days,
        key is Days ==> filled_once(before.days, after.days, read_int, r, "days"@) && after.seconds == before.seconds
            && after.nanoseconds == before.nanoseconds && after.tz_offset_seconds == before.tz_offset_seconds
            && after.tz_id == before.tz_id,
        key is Datetime || key is NaiveDatetime ==> after == before && r is Err,
{
}

/// Reading a field of a duration goes into the slot of the same name and
/// leaves the other slots as they were.
pub proof fn law_duration_field_slots<F: FnOnce() -> Result<BoltInteger, DeError>>(
    before: DurationBuilder,
    after: DurationBuilder,
    key: DurationFields,
    read: F,
    r: Result<(), DeError>,
)
    requires
        duration_field_read(before, after, key, read, r),
    ensures
        key is Months ==> filled_once(before.months, after.months, read, r, "months"@) && after.days == before.days
            && after.seconds == before.seconds && after.nanoseconds == before.nanoseconds,
        key is Days ==> filled_once(before.days, after.days, read, r, "days"@) && after.months == before.months
            && after.seconds == before.seconds && after.nanoseconds == before.nanoseconds,
        key is Seconds ==> filled_once(before.seconds, after.seconds, read, r, "seconds"@) && after.months == before.months
            && after.days == before.days && after.nanoseconds == before.nanoseconds,
        key is NanoSeconds ==> filled_once(before.nanoseconds, after.nanoseconds, read, r, "nanoseconds"@)
            && after.months == before.months && after.days == before.days && after.seconds == before.seconds,
{
}

/// Reading a field of a point goes into the slot of the same name and
/// leaves the other slots as they were.
pub proof fn law_point_field_slots<FI, FF>(
    before: BoltPointBuilder,
    after: BoltPointBuilder,
    key: PointFields,
    read_id: FI,
    read_coordinate: FF,
    r: Result<(), DeError>,
)
    where
        FI: FnOnce() -> Result<BoltInteger, DeError>,
        FF: FnOnce() -> Result<BoltFloat, DeError>,
    requires
        point_field_read(before, after, key, read_id, read_coordinate, r),
    ensures
        key is SrId ==> filled_once(before.sr_id, after.sr_id, read_id, r, "sr_id"@) && after.x == before.x && after.y
            == before.y && after.z == before.z,
        key is X ==> filled_once(before.x, after.x, read_coordinate, r, "x"@) && after.sr_id == before.sr_id && after.y
            == before.y && after.z == before.z,
        key is Y ==> filled_once(before.y, after.y, read_coordinate, r, "y"@) && after.sr_id == before.sr_id && after.x
            == before.x && after.z == before.z,
        key is Z ==> filled_once(before.z, after.z, read_coordinate, r, "z"@) && after.sr_id == before.sr_id && after.x
            == before.x && after.y == before.y,
{
}

/// A time read as a time of day and an optional offset gives the time of
/// day of its nanoseconds since midnight and its offset (none where it is
/// zero); a local time gives its time of day and no offset. Read with a
/// required offset, a time gives the same time of day and its offset, and a
/// zero offset, like a local time, is refused. An offset of a day or more
/// either way is refused.
pub proof fn law_time_tuples(t: TimeOfDay, off: i64)
    requires
        t.seconds < 86_400,
        t.nanoseconds < 1_000_000_000,
    ensures
        ({
            let n = nanos_of_time(t) as i64;
            &&& <(TimeOfDay, Option<Offset<i32>>) as FromBolt>::convert(Value::Time(n, off)) == if off == 0 {
                Ok::<(TimeOfDay, Option<i32>), DeErrorModel>((t, None))
            } else if -86_400 < off < 86_400 {
                Ok((t, Some(off as i32)))
            } else {
                Err(crate::extract::offset_of(off as int)->Err_0)
            }
            &&& <(TimeOfDay, Option<Offset<i32>>) as FromBolt>::convert(Value::LocalTime(n)) == Ok::<
                (TimeOfDay, Option<i32>),
                DeErrorModel,
            >((t, None))
            &&& off != 0 && -86_400 < off < 86_400 ==> <(TimeOfDay, Offset<i32>) as FromBolt>::convert(Value::Time(n, off))
                == Ok::<(TimeOfDay, i32), DeErrorModel>((t, off as i32))
            &&& off == 0 ==> <(TimeOfDay, Offset<i32>) as FromBolt>::convert(Value::Time(n, off)) is Err
            &&& <(TimeOfDay, Offset<i32>) as FromBolt>::convert(Value::LocalTime(n)) is Err
            &&& !(-86_400 < off < 86_400) ==> <(TimeOfDay, Offset<i32>) as FromBolt>::convert(Value::Time(n, off)) is Err
        }),
{
    law_time_of_day_round_trip(t);
    assert(0 <= nanos_of_time(t) < 86_400 * 1_000_000_000) by (nonlinear_arith)
        requires
            nanos_of_time(t) == t.seconds * 1_000_000_000 + t.nanoseconds,
            t.nanoseconds < 1_000_000_000,
            t.seconds < 86_400,
    ;
}

/// An integer reads as an offset exactly when it is less than a day either
/// way, and then as itself; the zone of a date-time with a zone id is its
/// zone id.
pub proof fn law_offset_and_zone<T: FromBolt>(i: i64, d: BoltDateTimeZoneId)
    ensures
        <Offset<i32> as FromBolt>::convert(Value::Integer(i)) is Ok <==> -86_400 < i < 86_400,
        -86_400 < i < 86_400 ==> <Offset<i32> as FromBolt>::convert(Value::Integer(i)) == Ok::<i32, DeErrorModel>(i as i32),
        <Timezone<T> as FromBolt>::convert(type_model(BoltType::DateTimeZoneId(d))) == T::convert(Value::String(d.tz_id.value@)),
{
}

} // verus!
