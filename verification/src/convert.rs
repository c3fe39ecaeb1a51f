//! Converting values into Rust types.
use vstd::prelude::*;
use std::collections::HashSet;
use vstd::std_specs::convert::FromSpecImpl;
use crate::buffer::bytes_to_vec;
use crate::de::{DeError, DeErrorModel, Unexpected, UnexpectedModel};
use crate::model::Value;
use crate::types::{list_values, type_model, BoltDuration, BoltInteger, BoltList, BoltType};
use crate::types::duration::total_seconds;
use crate::temporal::{
    checked_time_of_nanos, date_display, date_of_days, date_text, local_display, local_text, nanos_since_epoch, offset_valid,
    rfc3339_display, rfc3339_text, time_display, time_of_day_exists, time_of_nanos, time_text, timestamp_nanos,
    valid_timestamp, zone_offset, LocalDateTime, OffsetDateTime,
};

verus! {

/// How an error names a value that the target type does not take.
pub open spec fn unexpected_of(v: Value) -> UnexpectedModel {
    match v {
        Value::String(s) => UnexpectedModel::Str(s),
        Value::Boolean(b) => UnexpectedModel::Bool(b),
        Value::Dict(_) => UnexpectedModel::Mapping,
        Value::Null => UnexpectedModel::Unit,
        Value::Integer(i) => UnexpectedModel::Signed(i),
        Value::Float(f) => UnexpectedModel::Float(f),
        Value::List(_) => UnexpectedModel::Sequence,
        Value::Node(..) => UnexpectedModel::Mapping,
        Value::Relation(..) => UnexpectedModel::Mapping,
        Value::UnboundedRelation(..) => UnexpectedModel::Mapping,
        Value::Point2D(..) => UnexpectedModel::Other("Point2D"@),
        Value::Point3D(..) => UnexpectedModel::Other("Point3D"@),
        Value::Bytes(b) => UnexpectedModel::Bytes(b),
        Value::Path(..) => UnexpectedModel::Other("Path"@),
        Value::Duration(..) => UnexpectedModel::Other("Duration"@),
        Value::Date(..) => UnexpectedModel::Other("Date"@),
        Value::Time(..) => UnexpectedModel::Other("Time"@),
        Value::LocalTime(..) => UnexpectedModel::Other("LocalTime"@),
        Value::DateTime(..) => UnexpectedModel::Other("DateTime"@),
        Value::LocalDateTime(..) => UnexpectedModel::Other("LocalDateTime"@),
        Value::DateTimeZoneId(..) => UnexpectedModel::Other("DateTimeZoneId"@),
    }
}

/// The error of a value that the target type, which expects `expected`,
/// does not take.
pub open spec fn invalid_type(v: Value, expected: Seq<char>) -> DeErrorModel {
    DeErrorModel::InvalidType { received: unexpected_of(v), expected }
}

/// `str::to_owned` that answers a `String` (vstd states its view).
pub(crate) fn owned(s: &str) -> (r: String)
    ensures
        r@ == s@,
{
    s.to_owned()
}

impl BoltType {
    /// How an error names this value.
    pub fn unexpected(&self) -> (r: Unexpected)
        ensures
            r@ == unexpected_of(type_model(*self)),
    {
        match self {
            BoltType::String(s) => Unexpected::Str(s.value.clone()),
            BoltType::Boolean(b) => Unexpected::Bool(b.value),
            BoltType::Dict(_) => Unexpected::Mapping,
            BoltType::Null(_) => Unexpected::Unit,
            BoltType::Integer(i) => Unexpected::Signed(i.value),
            BoltType::Float(f) => Unexpected::Float(f.bits),
            BoltType::List(_) => Unexpected::Sequence,
            BoltType::Node(_) => Unexpected::Mapping,
            BoltType::Relation(_) => Unexpected::Mapping,
            BoltType::UnboundedRelation(_) => Unexpected::Mapping,
            BoltType::Point2D(_) => Unexpected::Other(owned("Point2D")),
            BoltType::Point3D(_) => Unexpected::Other(owned("Point3D")),
            BoltType::Bytes(b) => Unexpected::Bytes(bytes_to_vec(&b.value)),
            BoltType::Path(_) => Unexpected::Other(owned("Path")),
            BoltType::Duration(_) => Unexpected::Other(owned("Duration")),
            BoltType::Date(_) => Unexpected::Other(owned("Date")),
            BoltType::Time(_) => Unexpected::Other(owned("Time")),
            BoltType::LocalTime(_) => Unexpected::Other(owned("LocalTime")),
            BoltType::DateTime(_) => Unexpected::Other(owned("DateTime")),
            BoltType::LocalDateTime(_) => Unexpected::Other(owned("LocalDateTime")),
            BoltType::DateTimeZoneId(_) => Unexpected::Other(owned("DateTimeZoneId")),
        }
    }

    /// The error of this value for a target that expects `expected`.
    fn invalid_type_error(&self, expected: &str) -> (r: DeError)
        ensures
            r@ == invalid_type(type_model(*self), expected@),
    {
        DeError::InvalidType { received: self.unexpected(), expected: owned(expected) }
    }
}

/// A Rust type that a value can be converted into.
pub trait FromBolt: Sized {
    /// What a converted value is, as the contracts see it.
    type Out;

    /// The model of a converted value.
    spec fn out(x: Self) -> Self::Out;

    /// What converting `v` gives: the model of the result, or the error.
    spec fn convert(v: Value) -> Result<Self::Out, DeErrorModel>;

    /// Converts the value.
    fn from_bolt(value: &BoltType) -> (r: Result<Self, DeError>)
        ensures
            match Self::convert(type_model(*value)) {
                Ok(o) => r matches Ok(x) && Self::out(x) == o,
                Err(e) => r matches Err(x) && x@ == e,
            },
    ;
}

/// `r` is what converting `v` into `T` gives.
pub open spec fn converted<T: FromBolt>(v: Value, r: Result<T, DeError>) -> bool {
    match T::convert(v) {
        Ok(o) => r matches Ok(x) && T::out(x) == o,
        Err(e) => r matches Err(x) && x@ == e,
    }
}

/// The nanoseconds `t` since the epoch read as an integer of the range
/// `lo..=hi` of the type `name`: nanoseconds beyond an `i64` are a date-time
/// out of bounds.
pub open spec fn nanos_within(t: Option<i64>, lo: int, hi: int, name: Seq<char>) -> Result<int, DeErrorModel> {
    match t {
        Some(i) => if lo <= i <= hi {
            Ok(i as int)
        } else {
            Err(DeErrorModel::IntegerOutOfBounds(i, name))
        },
        None => Err(DeErrorModel::DateTimeOutOfBounds(name)),
    }
}

/// Converting a value into an integer of the range `lo..=hi` of the type
/// `name`: an integer as it is, a date-time with an offset or a local
/// date-time as the nanoseconds of it since the epoch; a date-time that
/// `chrono` does not hold is out of bounds.
pub open spec fn convert_integer(v: Value, lo: int, hi: int, name: Seq<char>) -> Result<int, DeErrorModel> {
    match v {
        Value::Integer(i) => if lo <= i <= hi {
            Ok(i as int)
        } else {
            Err(DeErrorModel::IntegerOutOfBounds(i, name))
        },
        Value::DateTime(seconds, nanoseconds, offset) => {
            let utc = seconds - offset;
            if i64::MIN <= utc <= i64::MAX && -86_400 < (offset as i32) < 86_400 && valid_timestamp(
                utc as i64,
                nanoseconds as u32,
            ) {
                nanos_within(nanos_since_epoch(utc as i64, nanoseconds as u32), lo, hi, name)
            } else {
                Err(DeErrorModel::DateTimeOutOfBounds(name))
            }
        },
        Value::LocalDateTime(seconds, nanoseconds) => if valid_timestamp(seconds, nanoseconds as u32) {
            nanos_within(nanos_since_epoch(seconds, nanoseconds as u32), lo, hi, name)
        } else {
            Err(DeErrorModel::DateTimeOutOfBounds(name))
        },
        _ => Err(invalid_type(v, name)),
    }
}

/// The nanoseconds `t` read as an integer of `lo..=hi`.
fn read_nanos(t: Option<i64>, lo: i64, hi: i64, name: &'static str) -> (r: Result<i64, DeError>)
    ensures
        match nanos_within(t, lo as int, hi as int, name@) {
            Ok(i) => r == Ok::<i64, DeError>(i as i64),
            Err(e) => r matches Err(x) && x@ == e,
        },
{
    match t {
        Some(i) => if lo <= i && i <= hi {
            Ok(i)
        } else {
            Err(DeError::IntegerOutOfBounds(i, name))
        },
        None => Err(DeError::DateTimeOutOfBounds(name)),
    }
}

/// The integer that `value` reads as, if it lies in `lo..=hi`; `name`
/// names the target type.
pub(crate) fn integer_within(value: &BoltType, lo: i64, hi: i64, name: &'static str) -> (r: Result<i64, DeError>)
    ensures
        match convert_integer(type_model(*value), lo as int, hi as int, name@) {
            Ok(i) => r == Ok::<i64, DeError>(i as i64),
            Err(e) => r matches Err(x) && x@ == e,
        },
{
    match value {
        BoltType::Integer(x) => {
            if lo <= x.value && x.value <= hi {
                Ok(x.value)
            } else {
                Err(DeError::IntegerOutOfBounds(x.value, name))
            }
        },
        BoltType::DateTime(dt) => {
            if dt.seconds.value.checked_sub(dt.tz_offset_seconds.value).is_none() {
                return Err(DeError::DateTimeOutOfBounds(name));
            }
            match dt.try_to_chrono() {
                Ok(instant) => read_nanos(timestamp_nanos(instant.seconds, instant.nanoseconds), lo, hi, name),
                Err(_) => Err(DeError::DateTimeOutOfBounds(name)),
            }
        },
        BoltType::LocalDateTime(ldt) => match ldt.try_to_chrono() {
            Ok(local) => read_nanos(timestamp_nanos(local.seconds, local.nanoseconds), lo, hi, name),
            Err(_) => Err(DeError::DateTimeOutOfBounds(name)),
        },
        _ => Err(value.invalid_type_error(name)),
    }
}

impl FromBolt for i8 {
    type Out = int;

    open spec fn out(x: i8) -> int {
        x as int
    }

    open spec fn convert(v: Value) -> Result<int, DeErrorModel> {
        convert_integer(v, i8::MIN as int, i8::MAX as int, "i8"@)
    }

    fn from_bolt(value: &BoltType) -> (r: Result<i8, DeError>) {
        match integer_within(value, -128, 127, "i8") {
            Ok(i) => Ok(i as i8),
            Err(e) => Err(e),
        }
    }
}

impl FromBolt for i16 {
    type Out = int;

    open spec fn out(x: i16) -> int {
        x as int
    }

    open spec fn convert(v: Value) -> Result<int, DeErrorModel> {
        convert_integer(v, i16::MIN as int, i16::MAX as int, "i16"@)
    }

    fn from_bolt(value: &BoltType) -> (r: Result<i16, DeError>) {
        match integer_within(value, -32_768, 32_767, "i16") {
            Ok(i) => Ok(i as i16),
            Err(e) => Err(e),
        }
    }
}

impl FromBolt for i32 {
    type Out = int;

    open spec fn out(x: i32) -> int {
        x as int
    }

    open spec fn convert(v: Value) -> Result<int, DeErrorModel> {
        convert_integer(v, i32::MIN as int, i32::MAX as int, "i32"@)
    }

    fn from_bolt(value: &BoltType) -> (r: Result<i32, DeError>) {
        match integer_within(value, -2_147_483_648, 2_147_483_647, "i32") {
            Ok(i) => Ok(i as i32),
            Err(e) => Err(e),
        }
    }
}

impl FromBolt for i64 {
    type Out = int;

    open spec fn out(x: i64) -> int {
        x as int
    }

    open spec fn convert(v: Value) -> Result<int, DeErrorModel> {
        convert_integer(v, i64::MIN as int, i64::MAX as int, "i64"@)
    }

    fn from_bolt(value: &BoltType) -> (r: Result<i64, DeError>) {
        integer_within(value, i64::MIN, i64::MAX, "i64")
    }
}

impl FromBolt for u8 {
    type Out = int;

    open spec fn out(x: u8) -> int {
        x as int
    }

    open spec fn convert(v: Value) -> Result<int, DeErrorModel> {
        convert_integer(v, 0, u8::MAX as int, "u8"@)
    }

    fn from_bolt(value: &BoltType) -> (r: Result<u8, DeError>) {
        match integer_within(value, 0, 255, "u8") {
            Ok(i) => Ok(i as u8),
            Err(e) => Err(e),
        }
    }
}

impl FromBolt for u16 {
    type Out = int;

    open spec fn out(x: u16) -> int {
        x as int
    }

    open spec fn convert(v: Value) -> Result<int, DeErrorModel> {
        convert_integer(v, 0, u16::MAX as int, "u16"@)
    }

    fn from_bolt(value: &BoltType) -> (r: Result<u16, DeError>) {
        match integer_within(value, 0, 65_535, "u16") {
            Ok(i) => Ok(i as u16),
            Err(e) => Err(e),
        }
    }
}

impl FromBolt for u32 {
    type Out = int;

    open spec fn out(x: u32) -> int {
        x as int
    }

    open spec fn convert(v: Value) -> Result<int, DeErrorModel> {
        convert_integer(v, 0, u32::MAX as int, "u32"@)
    }

    fn from_bolt(value: &BoltType) -> (r: Result<u32, DeError>) {
        match integer_within(value, 0, 4_294_967_295, "u32") {
            Ok(i) => Ok(i as u32),
            Err(e) => Err(e),
        }
    }
}

impl FromBolt for u64 {
    type Out = int;

    open spec fn out(x: u64) -> int {
        x as int
    }

    open spec fn convert(v: Value) -> Result<int, DeErrorModel> {
        convert_integer(v, 0, u64::MAX as int, "u64"@)
    }

    fn from_bolt(value: &BoltType) -> (r: Result<u64, DeError>) {
        match integer_within(value, 0, i64::MAX, "u64") {
            Ok(i) => Ok(i as u64),
            Err(e) => Err(e),
        }
    }
}

impl FromBolt for bool {
    type Out = bool;

    open spec fn out(x: bool) -> bool {
        x
    }

    open spec fn convert(v: Value) -> Result<bool, DeErrorModel> {
        match v {
            Value::Boolean(b) => Ok(b),
            _ => Err(invalid_type(v, "a boolean"@)),
        }
    }

    fn from_bolt(value: &BoltType) -> (r: Result<bool, DeError>) {
        match value {
            BoltType::Boolean(b) => Ok(b.value),
            _ => Err(value.invalid_type_error("a boolean")),
        }
    }
}

/// The text of an instant with an offset, or the error `message`.
pub open spec fn instant_text(o: OffsetDateTime, message: Seq<char>) -> Result<Seq<char>, DeErrorModel> {
    match rfc3339_display(o) {
        Some(t) => Ok(t),
        None => Err(DeErrorModel::Other(message)),
    }
}

/// Converting a value into a `String`: a string as it is, and a temporal
/// value as the text that `chrono` gives it (RFC 3339 for an instant); a
/// temporal value that `chrono` does not hold is an error.
pub open spec fn convert_string(v: Value) -> Result<Seq<char>, DeErrorModel> {
    match v {
        Value::String(s) => Ok(s),
        Value::Date(days) => match date_of_days(days) {
            Some(d) => Ok(date_display(d)),
            None => Err(DeErrorModel::Other("Could not convert Neo4j Date into chrono::NaiveDate"@)),
        },
        Value::Time(n, offset) => {
            let t = time_of_nanos(n);
            if time_of_day_exists(t.seconds, t.nanoseconds) && -86_400 < (offset as i32) < 86_400 {
                Ok(time_display(t))
            } else {
                Err(DeErrorModel::Other("Could not convert Neo4j Time into chrono::NaiveTime"@))
            }
        },
        Value::LocalTime(n) => {
            let t = time_of_nanos(n);
            if time_of_day_exists(t.seconds, t.nanoseconds) {
                Ok(time_display(t))
            } else {
                Err(DeErrorModel::Other("Could not convert Neo4j LocalTime into chrono::NaiveTime"@))
            }
        },
        Value::DateTime(seconds, nanoseconds, offset) => {
            let utc = seconds - offset;
            if i64::MIN <= utc <= i64::MAX && -86_400 < (offset as i32) < 86_400 && valid_timestamp(
                utc as i64,
                nanoseconds as u32,
            ) {
                instant_text(
                    OffsetDateTime { seconds: utc as i64, nanoseconds: nanoseconds as u32, offset_seconds: offset as i32 },
                    "Could not convert Neo4j DateTime into chrono::DateTime"@,
                )
            } else {
                Err(DeErrorModel::Other("Could not convert Neo4j DateTime into chrono::DateTime"@))
            }
        },
        Value::LocalDateTime(seconds, nanoseconds) => if valid_timestamp(seconds, nanoseconds as u32) {
            Ok(local_display(LocalDateTime { seconds, nanoseconds: nanoseconds as u32 }))
        } else {
            Err(DeErrorModel::Other("Could not convert Neo4j LocalDateTime into chrono::NaiveDateTime"@))
        },
        Value::DateTimeZoneId(seconds, nanoseconds, zone) => match zone_offset(zone, seconds, nanoseconds as u32) {
            Some(o) => instant_text(
                OffsetDateTime { seconds: (seconds - o) as i64, nanoseconds: nanoseconds as u32, offset_seconds: o },
                "Could not convert Neo4j DateTimeZoneId into chrono::DateTime"@,
            ),
            None => Err(DeErrorModel::Other("Could not convert Neo4j DateTimeZoneId into chrono::DateTime"@)),
        },
        _ => Err(invalid_type(v, "a string"@)),
    }
}

impl FromBolt for String {
    type Out = Seq<char>;

    open spec fn out(x: String) -> Seq<char> {
        x@
    }

    open spec fn convert(v: Value) -> Result<Seq<char>, DeErrorModel> {
        convert_string(v)
    }

    fn from_bolt(value: &BoltType) -> (r: Result<String, DeError>) {
        match value {
            BoltType::String(s) => Ok(s.value.clone()),
            BoltType::Date(d) => match d.try_to_chrono() {
                Ok(date) => Ok(date_text(date)),
                Err(_) => Err(DeError::Other(owned("Could not convert Neo4j Date into chrono::NaiveDate"))),
            },
            BoltType::Time(t) => {
                let offset = t.tz_offset_seconds.value as i32;
                match checked_time_of_nanos(t.nanoseconds.value) {
                    Some(time) => if offset_valid(offset) {
                        Ok(time_text(time))
                    } else {
                        Err(DeError::Other(owned("Could not convert Neo4j Time into chrono::NaiveTime")))
                    },
                    None => Err(DeError::Other(owned("Could not convert Neo4j Time into chrono::NaiveTime"))),
                }
            },
            BoltType::LocalTime(t) => match checked_time_of_nanos(t.nanoseconds.value) {
                Some(time) => Ok(time_text(time)),
                None => Err(DeError::Other(owned("Could not convert Neo4j LocalTime into chrono::NaiveTime"))),
            },
            BoltType::DateTime(dt) => {
                if dt.seconds.value.checked_sub(dt.tz_offset_seconds.value).is_none() {
                    return Err(DeError::Other(owned("Could not convert Neo4j DateTime into chrono::DateTime")));
                }
                match dt.try_to_chrono() {
                    Ok(instant) => match rfc3339_text(instant) {
                        Some(t) => Ok(t),
                        None => Err(DeError::Other(owned("Could not convert Neo4j DateTime into chrono::DateTime"))),
                    },
                    Err(_) => Err(DeError::Other(owned("Could not convert Neo4j DateTime into chrono::DateTime"))),
                }
            },
            BoltType::LocalDateTime(ldt) => match ldt.try_to_chrono() {
                Ok(local) => Ok(local_text(local)),
                Err(_) => Err(DeError::Other(owned("Could not convert Neo4j LocalDateTime into chrono::NaiveDateTime"))),
            },
            BoltType::DateTimeZoneId(dtz) => match dtz.try_to_chrono() {
                Ok(instant) => match rfc3339_text(instant) {
                    Some(t) => Ok(t),
                    None => Err(DeError::Other(owned("Could not convert Neo4j DateTimeZoneId into chrono::DateTime"))),
                },
                Err(_) => Err(DeError::Other(owned("Could not convert Neo4j DateTimeZoneId into chrono::DateTime"))),
            },
            _ => Err(value.invalid_type_error("a string")),
        }
    }
}

impl<T: FromBolt> FromBolt for Option<T> {
    type Out = Option<T::Out>;

    open spec fn out(x: Option<T>) -> Option<T::Out> {
        match x {
            Some(y) => Some(T::out(y)),
            None => None,
        }
    }

    open spec fn convert(v: Value) -> Result<Option<T::Out>, DeErrorModel> {
        match v {
            Value::Null => Ok(None),
            _ => match T::convert(v) {
                Ok(o) => Ok(Some(o)),
                Err(e) => Err(e),
            },
        }
    }

    fn from_bolt(value: &BoltType) -> (r: Result<Option<T>, DeError>) {
        match value {
            BoltType::Null(_) => Ok(None),
            _ => match T::from_bolt(value) {
                Ok(x) => Ok(Some(x)),
                Err(e) => Err(e),
            },
        }
    }
}

/// Converting values one after the other; the first error wins.
pub open spec fn convert_items<T: FromBolt>(items: Seq<Value>) -> Result<Seq<T::Out>, DeErrorModel>
    decreases items.len(),
{
    if items.len() == 0 {
        Ok(Seq::empty())
    } else {
        match T::convert(items[0]) {
            Err(e) => Err(e),
            Ok(o) => match convert_items::<T>(items.subrange(1, items.len() as int)) {
                Ok(rest) => Ok(seq![o] + rest),
                Err(e) => Err(e),
            },
        }
    }
}

/// The bytes of a byte array, as integer values.
pub open spec fn byte_values(b: Seq<u8>) -> Seq<Value> {
    Seq::new(b.len(), |i: int| Value::Integer(b[i] as i64))
}

/// Values already converted, before the outcome of converting the rest.
pub open spec fn after_converted<O>(done: Seq<O>, r: Result<Seq<O>, DeErrorModel>) -> Result<Seq<O>, DeErrorModel> {
    match r {
        Ok(rest) => Ok(done + rest),
        Err(e) => Err(e),
    }
}

/// The models of converted values.
pub open spec fn outs<T: FromBolt>(xs: Seq<T>) -> Seq<T::Out> {
    Seq::new(xs.len(), |i: int| T::out(xs[i]))
}

/// One step of converting values one after the other.
proof fn lemma_convert_step<T: FromBolt>(items: Seq<Value>, i: int)
    requires
        0 <= i < items.len(),
    ensures
        convert_items::<T>(items.subrange(i, items.len() as int)) == match T::convert(items[i]) {
            Err(e) => Err(e),
            Ok(o) => after_converted(seq![o], convert_items::<T>(items.subrange(i + 1, items.len() as int))),
        },
{
    let rest = items.subrange(i, items.len() as int);
    assert(rest[0] == items[i]);
    assert(rest.subrange(1, rest.len() as int) =~= items.subrange(i + 1, items.len() as int));
}

/// Converts the elements of a list one after the other.
pub(crate) fn convert_list<T: FromBolt>(l: &BoltList) -> (r: Result<Vec<T>, DeError>)
    ensures
        match convert_items::<T>(list_values(*l)) {
            Ok(o) => r matches Ok(x) && outs(x@) == o,
            Err(e) => r matches Err(x) && x@ == e,
        },
{
    let ghost items = list_values(*l);
    let n = l.value.len();
    let mut out: Vec<T> = Vec::new();
    let mut i: usize = 0;
    assert(items.subrange(0, n as int) =~= items);
    assert(outs(out@) + Seq::<T::Out>::empty() =~= Seq::<T::Out>::empty());
    while i < n
        invariant
            i <= n,
            n == l.value@.len(),
            items == list_values(*l),
            out@.len() == i,
            convert_items::<T>(items) == after_converted(outs(out@), convert_items::<T>(items.subrange(i as int, n as int))),
        decreases n - i,
    {
        proof {
            lemma_convert_step::<T>(items, i as int);
        }
        let ghost before = outs(out@);
        match T::from_bolt(&l.value[i]) {
            Ok(x) => {
                out.push(x);
                proof {
                    assert(outs(out@) =~= before + seq![T::out(x)]);
                    match convert_items::<T>(items.subrange(i + 1, n as int)) {
                        Ok(rest) => {
                            assert(before + (seq![T::out(x)] + rest) =~= outs(out@) + rest);
                        },
                        Err(_) => {},
                    }
                }
            },
            Err(e) => return Err(e),
        }
        i = i + 1;
    }
    assert(items.subrange(n as int, n as int) =~= Seq::<Value>::empty());
    assert(outs(out@) + Seq::<T::Out>::empty() =~= outs(out@));
    Ok(out)
}

/// Converts the bytes of a byte array one after the other, each as an
/// integer value.
fn convert_bytes<T: FromBolt>(bytes: &Vec<u8>) -> (r: Result<Vec<T>, DeError>)
    ensures
        match convert_items::<T>(byte_values(bytes@)) {
            Ok(o) => r matches Ok(x) && outs(x@) == o,
            Err(e) => r matches Err(x) && x@ == e,
        },
{
    let ghost items = byte_values(bytes@);
    let n = bytes.len();
    let mut out: Vec<T> = Vec::new();
    let mut i: usize = 0;
    assert(items.subrange(0, n as int) =~= items);
    assert(outs(out@) + Seq::<T::Out>::empty() =~= Seq::<T::Out>::empty());
    while i < n
        invariant
            i <= n,
            n == bytes@.len(),
            items == byte_values(bytes@),
            out@.len() == i,
            convert_items::<T>(items) == after_converted(outs(out@), convert_items::<T>(items.subrange(i as int, n as int))),
        decreases n - i,
    {
        proof {
            lemma_convert_step::<T>(items, i as int);
        }
        let ghost before = outs(out@);
        let element = BoltType::Integer(BoltInteger::new(bytes[i] as i64));
        assert(type_model(element) == items[i as int]);
        match T::from_bolt(&element) {
            Ok(x) => {
                out.push(x);
                proof {
                    assert(outs(out@) =~= before + seq![T::out(x)]);
                    match convert_items::<T>(items.subrange(i + 1, n as int)) {
                        Ok(rest) => {
                            assert(before + (seq![T::out(x)] + rest) =~= outs(out@) + rest);
                        },
                        Err(_) => {},
                    }
                }
            },
            Err(e) => return Err(e),
        }
        i = i + 1;
    }
    assert(items.subrange(n as int, n as int) =~= Seq::<Value>::empty());
    assert(outs(out@) + Seq::<T::Out>::empty() =~= outs(out@));
    Ok(out)
}

impl<T: FromBolt> FromBolt for Vec<T> {
    type Out = Seq<T::Out>;

    open spec fn out(x: Vec<T>) -> Seq<T::Out> {
        outs(x@)
    }

    open spec fn convert(v: Value) -> Result<Seq<T::Out>, DeErrorModel> {
        match v {
            Value::List(items) => convert_items::<T>(items),
            Value::Bytes(b) => convert_items::<T>(byte_values(b)),
            _ => Err(invalid_type(v, "a sequence"@)),
        }
    }

    fn from_bolt(value: &BoltType) -> (r: Result<Vec<T>, DeError>) {
        match value {
            BoltType::List(l) => convert_list(l),
            BoltType::Bytes(b) => convert_bytes(&bytes_to_vec(&b.value)),
            _ => Err(value.invalid_type_error("a sequence")),
        }
    }
}

/// The characters of the strings of a set.
pub open spec fn string_set(s: Set<String>) -> Set<Seq<char>> {
    s.map(|x: String| x@)
}

/// `HashSet::insert` on a set of strings: afterwards the set holds a string
/// with the characters of `s`, and the others it held.
#[verifier::external_body]
fn insert_string(set: &mut HashSet<String>, s: String)
    ensures
        string_set(final(set)@) == string_set(old(set)@).insert(s@),
{
    set.insert(s);
}

/// The empty set of strings has no characters.
proof fn lemma_string_set_empty()
    ensures
        string_set(Set::<String>::empty()) == Set::<Seq<char>>::empty(),
{
    assert(string_set(Set::<String>::empty()) =~= Set::<Seq<char>>::empty());
}

impl FromBolt for HashSet<String> {
    type Out = Set<Seq<char>>;

    open spec fn out(x: HashSet<String>) -> Set<Seq<char>> {
        string_set(x@)
    }

    open spec fn convert(v: Value) -> Result<Set<Seq<char>>, DeErrorModel> {
        match <Vec<String> as FromBolt>::convert(v) {
            Ok(strings) => Ok(strings.to_set()),
            Err(e) => Err(e),
        }
    }

    fn from_bolt(value: &BoltType) -> (r: Result<HashSet<String>, DeError>) {
        let strings: Vec<String> = match <Vec<String> as FromBolt>::from_bolt(value) {
            Ok(v) => v,
            Err(e) => return Err(e),
        };
        let ghost chars = outs::<String>(strings@);
        let mut set: HashSet<String> = HashSet::new();
        proof {
            lemma_string_set_empty();
            assert(chars.subrange(0, 0).to_set() =~= Set::<Seq<char>>::empty());
        }
        let n = strings.len();
        let mut i: usize = 0;
        while i < n
            invariant
                i <= n,
                n == strings@.len(),
                chars == outs::<String>(strings@),
                string_set(set@) == chars.subrange(0, i as int).to_set(),
            decreases n - i,
        {
            let s = strings[i].clone();
            insert_string(&mut set, s);
            proof {
                assert(chars[i as int] == strings@[i as int]@);
                let a = chars.subrange(0, i as int);
                let b = chars.subrange(0, i + 1);
                assert(b.to_set() =~= a.to_set().insert(chars[i as int])) by {
                    assert forall|x: Seq<char>| b.contains(x) <==> a.to_set().insert(chars[i as int]).contains(x) by {
                        if b.contains(x) {
                            let k = choose|k: int| 0 <= k < b.len() && #[trigger] b[k] == x;
                            if k < i {
                                assert(a[k] == x);
                            }
                        }
                        if a.contains(x) {
                            let k = choose|k: int| 0 <= k < a.len() && #[trigger] a[k] == x;
                            assert(b[k] == x);
                        }
                        if x == chars[i as int] {
                            assert(b[i as int] == x);
                        }
                    }
                }
            }
            i = i + 1;
        }
        assert(chars.subrange(0, n as int) =~= chars);
        Ok(set)
    }
}

// ---------------------------------------------------------------- durations

#[verifier::external_type_specification]
#[verifier::external_body]
pub struct ExSignedDuration(time::SignedDuration);

/// The whole seconds of a `std::time::Duration` (`as_secs`).
pub uninterp spec fn std_secs(d: std::time::Duration) -> u64;

/// The nanoseconds past the whole seconds of a `std::time::Duration`
/// (`subsec_nanos`).
pub uninterp spec fn std_subsec_nanos(d: std::time::Duration) -> u32;

/// The whole seconds of a `time::Duration` (`whole_seconds`).
pub uninterp spec fn signed_secs(d: time::Duration) -> i64;

/// The nanoseconds past the whole seconds of a `time::Duration`
/// (`subsec_nanoseconds`), of the sign of the duration.
pub uninterp spec fn signed_subsec_nanos(d: time::Duration) -> i32;

/// `std::time::Duration::new`: nanoseconds of a billion or more carry over
/// into the seconds; it panics when the seconds overflow, which `requires`
/// leaves out.
#[verifier::external_body]
fn std_duration_new(secs: u64, nanos: u32) -> (d: std::time::Duration)
    requires
        secs + nanos / 1_000_000_000 <= u64::MAX,
    ensures
        std_secs(d) == secs + nanos / 1_000_000_000,
        std_subsec_nanos(d) == nanos % 1_000_000_000,
{
    std::time::Duration::new(secs, nanos)
}

/// `std::time::Duration::as_secs`.
#[verifier::external_body]
fn std_duration_secs(d: &std::time::Duration) -> (r: u64)
    ensures
        r == std_secs(*d),
{
    d.as_secs()
}

/// `std::time::Duration::subsec_nanos`: always less than a billion.
#[verifier::external_body]
fn std_duration_subsec_nanos(d: &std::time::Duration) -> (r: u32)
    ensures
        r == std_subsec_nanos(*d),
        r < 1_000_000_000,
{
    d.subsec_nanos()
}

/// `time::Duration::new` with nanoseconds of less than a billion either
/// way: the nanoseconds take the sign of the seconds, a second moving over
/// where the signs differ.
#[verifier::external_body]
fn signed_duration_new(seconds: i64, nanoseconds: i32) -> (d: time::Duration)
    requires
        -1_000_000_000 < nanoseconds < 1_000_000_000,
    ensures
        seconds > 0 && nanoseconds < 0 ==> signed_secs(d) == seconds - 1 && signed_subsec_nanos(d) == nanoseconds + 1_000_000_000,
        seconds < 0 && nanoseconds > 0 ==> signed_secs(d) == seconds + 1 && signed_subsec_nanos(d) == nanoseconds - 1_000_000_000,
        !(seconds > 0 && nanoseconds < 0) && !(seconds < 0 && nanoseconds > 0) ==> signed_secs(d) == seconds
            && signed_subsec_nanos(d) == nanoseconds,
{
    time::Duration::new(seconds, nanoseconds)
}

/// Converting a value into a `std::time::Duration`: a duration's seconds
/// (months and days included) and nanoseconds, which must fit the seconds
/// and nanoseconds of the type without overflow.
pub open spec fn convert_std_duration(v: Value) -> Result<(u64, u32), DeErrorModel> {
    match v {
        Value::Duration(months, days, seconds, nanoseconds) => {
            let secs = total_seconds(months, days, seconds);
            if secs < 0 {
                Err(DeErrorModel::InvalidValue { received: UnexpectedModel::Signed(secs), expected: "u64"@ })
            } else if !(0 <= nanoseconds <= u32::MAX) {
                Err(DeErrorModel::InvalidValue { received: UnexpectedModel::Signed(nanoseconds), expected: "u32"@ })
            } else if secs + nanoseconds / 1_000_000_000 > u64::MAX {
                Err(DeErrorModel::Other("overflow deserializing Duration"@))
            } else {
                Ok(((secs + nanoseconds / 1_000_000_000) as u64, (nanoseconds % 1_000_000_000) as u32))
            }
        },
        _ => Err(invalid_type(v, "struct Duration"@)),
    }
}

impl FromBolt for std::time::Duration {
    type Out = (u64, u32);

    open spec fn out(x: std::time::Duration) -> (u64, u32) {
        (std_secs(x), std_subsec_nanos(x))
    }

    open spec fn convert(v: Value) -> Result<(u64, u32), DeErrorModel> {
        convert_std_duration(v)
    }

    fn from_bolt(value: &BoltType) -> (r: Result<std::time::Duration, DeError>) {
        match value {
            BoltType::Duration(d) => {
                let secs = d.seconds();
                let nanos = d.nanoseconds();
                if secs < 0 {
                    Err(DeError::InvalidValue { received: Unexpected::Signed(secs), expected: owned("u64") })
                } else if nanos < 0 || nanos > 4_294_967_295 {
                    Err(DeError::InvalidValue { received: Unexpected::Signed(nanos), expected: owned("u32") })
                } else if (secs as u64).checked_add((nanos as u32 / 1_000_000_000) as u64).is_none() {
                    Err(DeError::Other(owned("overflow deserializing Duration")))
                } else {
                    Ok(std_duration_new(secs as u64, nanos as u32))
                }
            },
            _ => Err(value.invalid_type_error("struct Duration")),
        }
    }
}

/// Converting a value into a `time::Duration`: a duration's seconds (months
/// and days included) and nanoseconds, which must be less than a billion
/// either way.
pub open spec fn convert_signed_duration(v: Value) -> Result<(i64, i32), DeErrorModel> {
    match v {
        Value::Duration(months, days, seconds, nanoseconds) => {
            let secs = total_seconds(months, days, seconds);
            if !(i32::MIN <= nanoseconds <= i32::MAX) {
                Err(DeErrorModel::InvalidValue { received: UnexpectedModel::Signed(nanoseconds), expected: "i32"@ })
            } else if !(-1_000_000_000 < nanoseconds < 1_000_000_000) {
                Err(
                    DeErrorModel::InvalidValue {
                        received: UnexpectedModel::Other("integer"@),
                        expected: "an integer in the range -999999999..=999999999"@,
                    },
                )
            } else if secs > 0 && nanoseconds < 0 {
                Ok(((secs - 1) as i64, (nanoseconds + 1_000_000_000) as i32))
            } else if secs < 0 && nanoseconds > 0 {
                Ok(((secs + 1) as i64, (nanoseconds - 1_000_000_000) as i32))
            } else {
                Ok((secs, nanoseconds as i32))
            }
        },
        _ => Err(invalid_type(v, "a `SignedDuration`"@)),
    }
}

impl FromBolt for time::Duration {
    type Out = (i64, i32);

    open spec fn out(x: time::Duration) -> (i64, i32) {
        (signed_secs(x), signed_subsec_nanos(x))
    }

    open spec fn convert(v: Value) -> Result<(i64, i32), DeErrorModel> {
        convert_signed_duration(v)
    }

    fn from_bolt(value: &BoltType) -> (r: Result<time::Duration, DeError>) {
        match value {
            BoltType::Duration(d) => {
                let secs = d.seconds();
                let nanos = d.nanoseconds();
                if nanos < -2_147_483_648 || nanos > 2_147_483_647 {
                    Err(DeError::InvalidValue { received: Unexpected::Signed(nanos), expected: owned("i32") })
                } else if nanos <= -1_000_000_000 || nanos >= 1_000_000_000 {
                    Err(
                        DeError::InvalidValue {
                            received: Unexpected::Other(owned("integer")),
                            expected: owned("an integer in the range -999999999..=999999999"),
                        },
                    )
                } else {
                    Ok(signed_duration_new(secs, nanos as i32))
                }
            },
            _ => Err(value.invalid_type_error("a `SignedDuration`")),
        }
    }
}

impl BoltDuration {
    /// The duration of `value`: its whole seconds and nanoseconds, with no
    /// months or days; seconds beyond the range of `i64` wrap around.
    pub fn from_std(value: std::time::Duration) -> (r: BoltDuration)
        ensures
            r.months.value == 0,
            r.days.value == 0,
            r.seconds.value == std_secs(value) as i64,
            r.nanoseconds.value == std_subsec_nanos(value) as i64,
    {
        let seconds = std_duration_secs(&value);
        let nanos = std_duration_subsec_nanos(&value);
        BoltDuration::new(BoltInteger::new(0), BoltInteger::new(0), BoltInteger::new(seconds as i64), BoltInteger::new(nanos as i64))
    }
}

impl From<std::time::Duration> for BoltDuration {
    fn from(value: std::time::Duration) -> (r: BoltDuration) {
        BoltDuration::from_std(value)
    }
}

impl FromSpecImpl<std::time::Duration> for BoltDuration {
    open spec fn obeys_from_spec() -> bool {
        true
    }

    open spec fn from_spec(value: std::time::Duration) -> BoltDuration {
        BoltDuration {
            months: BoltInteger { value: 0 },
            days: BoltInteger { value: 0 },
            seconds: BoltInteger { value: std_secs(value) as i64 },
            nanoseconds: BoltInteger { value: std_subsec_nanos(value) as i64 },
        }
    }
}

impl BoltType {
    /// Converts the value into `T`.
    pub fn to<T: FromBolt>(&self) -> (r: Result<T, DeError>)
        ensures
            converted::<T>(type_model(*self), r),
    {
        T::from_bolt(self)
    }
}

} // verus!
