//! The mathematical model of PackStream values and of the errors the
//! library reports.
use vstd::prelude::*;

verus! {

/// A PackStream value as the wire format sees it.
///
/// Strings are sequences of chars, floats their IEEE 754 bit pattern,
/// maps sequences of entries (the library keeps their keys distinct).
pub enum Value {
    Null,
    Boolean(bool),
    Integer(i64),
    Float(u64),
    Bytes(Seq<u8>),
    String(Seq<char>),
    List(Seq<Value>),
    Dict(Seq<(Seq<char>, Value)>),
    /// id, labels, properties
    Node(i64, Seq<Value>, Seq<(Seq<char>, Value)>),
    /// id, start node id, end node id, type, properties
    Relation(i64, i64, i64, Seq<char>, Seq<(Seq<char>, Value)>),
    /// id, type, properties
    UnboundedRelation(i64, Seq<char>, Seq<(Seq<char>, Value)>),
    /// nodes, relationships, indices
    Path(Seq<Value>, Seq<Value>, Seq<Value>),
    /// spatial reference id, x, y
    Point2D(i64, u64, u64),
    /// spatial reference id, x, y, z
    Point3D(i64, u64, u64, u64),
    /// months, days, seconds, nanoseconds
    Duration(i64, i64, i64, i64),
    /// days since the epoch
    Date(i64),
    /// nanoseconds since midnight, offset in seconds
    Time(i64, i64),
    /// nanoseconds since midnight
    LocalTime(i64),
    /// seconds, nanoseconds, offset in seconds
    DateTime(i64, i64, i64),
    /// seconds, nanoseconds
    LocalDateTime(i64, i64),
    /// seconds, nanoseconds, zone id
    DateTimeZoneId(i64, i64, Seq<char>),
}

/// The model of the library's errors.
pub enum ErrorModel {
    InvalidTypeMarker(Seq<char>),
    UnknownType(u8),
    StringTooLong,
    BytesTooBig,
    ListTooLong,
    MapTooBig,
    DeserializationError(Seq<char>),
    UnsupportedVersion(u8, u8),
    ProtocolMismatch(u32),
    ConversionError,
}

/// The decimal digit of `d` (`d < 10`).
pub open spec fn digit_char(d: nat) -> char {
    if d == 0 { '0' }
    else if d == 1 { '1' }
    else if d == 2 { '2' }
    else if d == 3 { '3' }
    else if d == 4 { '4' }
    else if d == 5 { '5' }
    else if d == 6 { '6' }
    else if d == 7 { '7' }
    else if d == 8 { '8' }
    else { '9' }
}

/// The decimal representation of a natural number, without leading zeros.
pub open spec fn decimal(n: nat) -> Seq<char>
    decreases n,
{
    if n < 10 {
        seq![digit_char(n)]
    } else {
        decimal(n / 10) + seq![digit_char(n % 10)]
    }
}

/// The decimal representation of an integer, with a leading `-` when negative.
pub open spec fn signed_decimal(i: int) -> Seq<char> {
    if i < 0 {
        seq!['-'] + decimal((-i) as nat)
    } else {
        decimal(i as nat)
    }
}

} // verus!
