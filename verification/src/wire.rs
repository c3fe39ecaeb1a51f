//! The PackStream encoding of values, and the decoding of bytes, as
//! mathematical functions.
use vstd::prelude::*;
use vstd::utf8::{decode_utf8, encode_utf8, valid_utf8};
use crate::buffer::{be_u16, be_u32, be_u64, u16_from_be, u32_from_be, u64_from_be};
use crate::model::{decimal, ErrorModel, Value};
use crate::text::utf8_error_message;
use crate::errors::Error;

verus! {

// ---------------------------------------------------------------- contracts

/// A type of the library whose values have a mathematical model.
pub trait Model {
    type M;

    spec fn model(&self) -> Self::M;
}

/// A write of the encoding `enc` turned the buffer `before` into `after`
/// and answered `r`: on success the encoding was appended, on failure its
/// error was returned.
pub open spec fn wrote(enc: Result<Seq<u8>, ErrorModel>, before: Seq<u8>, after: Seq<u8>, r: Result<(), Error>) -> bool {
    match enc {
        Ok(b) => r is Ok && after == before + b,
        Err(e) => r matches Err(x) && x@ == e,
    }
}

/// A read of `d` off the front of `before` left `after` and answered `r`:
/// on success the value was taken off the front, on failure the error was
/// returned.
pub open spec fn parsed<X: Model>(d: Decoding<X::M>, before: Seq<u8>, after: Seq<u8>, r: Result<X, Error>) -> bool {
    match d {
        Decoding::Done(v, n) => r matches Ok(x) && x.model() == v && n <= before.len()
            && after == before.subrange(n as int, before.len() as int),
        Decoding::Failed(e) => r matches Err(x) && x@ == e,
        Decoding::Short => false,
    }
}

// ---------------------------------------------------------------- encoding

/// Sequencing of two encodings: the first error wins.
pub open spec fn then(a: Result<Seq<u8>, ErrorModel>, b: Result<Seq<u8>, ErrorModel>) -> Result<Seq<u8>, ErrorModel> {
    match a {
        Err(e) => Err(e),
        Ok(x) => match b {
            Err(e) => Err(e),
            Ok(y) => Ok(x + y),
        },
    }
}

/// The encoding of an integer: the shortest of the tiny, 8, 16, 32 and 64 bit forms.
pub open spec fn encode_int(i: i64) -> Seq<u8> {
    if -16 <= i <= 127 {
        seq![i as u8]
    } else if -128 <= i <= -17 {
        seq![0xC8u8, (i as i8) as u8]
    } else if -32_768 <= i <= 32_767 {
        seq![0xC9u8] + be_u16((i as i16) as u16)
    } else if -2_147_483_648 <= i <= 2_147_483_647 {
        seq![0xCAu8] + be_u32((i as i32) as u32)
    } else {
        seq![0xCBu8] + be_u64(i as u64)
    }
}

/// The encoding of a float, given by its bit pattern.
pub open spec fn encode_float(bits: u64) -> Seq<u8> {
    seq![0xC1u8] + be_u64(bits)
}

/// The marker and size of a string of `n` bytes.
pub open spec fn string_header(n: nat) -> Result<Seq<u8>, ErrorModel> {
    if n <= 15 {
        Ok(seq![0x80u8 | (n as u8)])
    } else if n <= 255 {
        Ok(seq![0xD0u8, n as u8])
    } else if n <= 65_535 {
        Ok(seq![0xD1u8] + be_u16(n as u16))
    } else if n <= 4_294_967_295 {
        Ok(seq![0xD2u8] + be_u32(n as u32))
    } else {
        Err(ErrorModel::StringTooLong)
    }
}

/// The marker and size of a byte array of `n` bytes.
pub open spec fn bytes_header(n: nat) -> Result<Seq<u8>, ErrorModel> {
    if n <= 255 {
        Ok(seq![0xCCu8, n as u8])
    } else if n <= 65_535 {
        Ok(seq![0xCDu8] + be_u16(n as u16))
    } else if n <= 2_147_483_648 {
        Ok(seq![0xCEu8] + be_u32(n as u32))
    } else {
        Err(ErrorModel::BytesTooBig)
    }
}

/// The marker and size of a list of `n` elements.
pub open spec fn list_header(n: nat) -> Result<Seq<u8>, ErrorModel> {
    if n <= 15 {
        Ok(seq![0x90u8 | (n as u8)])
    } else if n <= 255 {
        Ok(seq![0xD4u8, n as u8])
    } else if n <= 65_535 {
        Ok(seq![0xD5u8] + be_u16(n as u16))
    } else if n <= 2_147_483_648 {
        Ok(seq![0xD6u8] + be_u32(n as u32))
    } else {
        Err(ErrorModel::ListTooLong)
    }
}

/// The marker and size of a map of `n` entries.
pub open spec fn map_header(n: nat) -> Result<Seq<u8>, ErrorModel> {
    if n <= 15 {
        Ok(seq![0xA0u8 | (n as u8)])
    } else if n <= 255 {
        Ok(seq![0xD8u8, n as u8])
    } else if n <= 65_535 {
        Ok(seq![0xD9u8] + be_u16(n as u16))
    } else if n <= 4_294_967_295 {
        Ok(seq![0xDAu8] + be_u32(n as u32))
    } else {
        Err(ErrorModel::MapTooBig)
    }
}

/// The encoding of a string: its size, then its UTF-8 bytes.
pub open spec fn encode_string(s: Seq<char>) -> Result<Seq<u8>, ErrorModel> {
    then(string_header(encode_utf8(s).len()), Ok(encode_utf8(s)))
}

/// The encoding of a byte array: its size, then its bytes.
pub open spec fn encode_bytes(b: Seq<u8>) -> Result<Seq<u8>, ErrorModel> {
    then(bytes_header(b.len()), Ok(b))
}

/// The encoding of null.
pub open spec fn encode_null() -> Seq<u8> {
    seq![0xC0u8]
}

/// The encoding of a boolean.
pub open spec fn encode_boolean(b: bool) -> Seq<u8> {
    seq![if b { 0xC3u8 } else { 0xC2u8 }]
}

/// The encoding of a 2D point.
pub open spec fn encode_point2d(sr_id: i64, x: u64, y: u64) -> Seq<u8> {
    seq![0xB3u8, 0x58u8] + encode_int(sr_id) + encode_float(x) + encode_float(y)
}

/// The encoding of a 3D point.
pub open spec fn encode_point3d(sr_id: i64, x: u64, y: u64, z: u64) -> Seq<u8> {
    seq![0xB4u8, 0x59u8] + encode_int(sr_id) + encode_float(x) + encode_float(y) + encode_float(z)
}

/// The encoding of a structure of integers, given its marker and signature.
pub open spec fn encode_int_struct(marker: u8, signature: u8, fields: Seq<i64>) -> Seq<u8>
    decreases fields.len(),
{
    if fields.len() == 0 {
        seq![marker, signature]
    } else {
        encode_int_struct(marker, signature, fields.drop_last()) + encode_int(fields.last())
    }
}

/// The encoding of a date-time with a zone id.
pub open spec fn encode_zoned(seconds: i64, nanoseconds: i64, tz_id: Seq<char>) -> Result<Seq<u8>, ErrorModel> {
    then(Ok(encode_int_struct(0xB3, 0x66, seq![seconds, nanoseconds])), encode_string(tz_id))
}

/// The encoding of a value.
pub open spec fn encode(v: Value) -> Result<Seq<u8>, ErrorModel>
    decreases v, 1nat,
{
    match v {
        Value::Null => Ok(encode_null()),
        Value::Boolean(b) => Ok(encode_boolean(b)),
        Value::Integer(i) => Ok(encode_int(i)),
        Value::Float(bits) => Ok(encode_float(bits)),
        Value::Bytes(b) => encode_bytes(b),
        Value::String(s) => encode_string(s),
        Value::List(items) => encode_list(items),
        Value::Dict(entries) => encode_dict(entries),
        Value::Node(..) => encode_element(v),
        Value::Relation(..) => encode_element(v),
        Value::UnboundedRelation(..) => encode_element(v),
        Value::Path(..) => encode_element(v),
        Value::Point2D(sr_id, x, y) => Ok(encode_point2d(sr_id, x, y)),
        Value::Point3D(sr_id, x, y, z) => Ok(encode_point3d(sr_id, x, y, z)),
        Value::Duration(months, days, seconds, nanoseconds) => Ok(
            encode_int_struct(0xB4, 0x45, seq![months, days, seconds, nanoseconds]),
        ),
        Value::Date(days) => Ok(encode_int_struct(0xB1, 0x44, seq![days])),
        Value::Time(nanoseconds, offset) => Ok(encode_int_struct(0xB2, 0x54, seq![nanoseconds, offset])),
        Value::LocalTime(nanoseconds) => Ok(encode_int_struct(0xB1, 0x74, seq![nanoseconds])),
        Value::DateTime(seconds, nanoseconds, offset) => Ok(
            encode_int_struct(0xB3, 0x46, seq![seconds, nanoseconds, offset]),
        ),
        Value::LocalDateTime(seconds, nanoseconds) => Ok(
            encode_int_struct(0xB2, 0x64, seq![seconds, nanoseconds]),
        ),
        Value::DateTimeZoneId(seconds, nanoseconds, tz_id) => encode_zoned(seconds, nanoseconds, tz_id),
    }
}

/// The encoding of a graph element: a node, a relationship (bound to its
/// end points or not) or a path.
pub open spec fn encode_element(v: Value) -> Result<Seq<u8>, ErrorModel>
    decreases v, 0nat,
{
    match v {
        Value::Node(id, labels, props) => then(
            Ok(seq![0xB3u8, 0x4Eu8] + encode_int(id)),
            then(encode_list(labels), encode_dict(props)),
        ),
        Value::Relation(id, start, end, typ, props) => then(
            Ok(seq![0xB5u8, 0x52u8] + encode_int(id) + encode_int(start) + encode_int(end)),
            then(encode_string(typ), encode_dict(props)),
        ),
        Value::UnboundedRelation(id, typ, props) => then(
            Ok(seq![0xB3u8, 0x72u8] + encode_int(id)),
            then(encode_string(typ), encode_dict(props)),
        ),
        Value::Path(nodes, rels, ids) => then(
            Ok(seq![0xB3u8, 0x50u8]),
            then(encode_list(nodes), then(encode_list(rels), encode_list(ids))),
        ),
        _ => Ok(Seq::empty()),
    }
}

/// The encoding of a list: the elements are encoded before the size is checked.
pub open spec fn encode_list(items: Seq<Value>) -> Result<Seq<u8>, ErrorModel>
    decreases items, 2nat,
{
    match encode_items(items) {
        Err(e) => Err(e),
        Ok(body) => then(list_header(items.len()), Ok(body)),
    }
}

/// The concatenated encodings of the elements of a list.
pub open spec fn encode_items(items: Seq<Value>) -> Result<Seq<u8>, ErrorModel>
    decreases items, 1nat,
{
    if items.len() == 0 {
        Ok(Seq::empty())
    } else {
        then(encode(items[0]), encode_items(items.subrange(1, items.len() as int)))
    }
}

/// The encoding of a map: the size is checked first, then each key and value follow.
pub open spec fn encode_dict(entries: Seq<(Seq<char>, Value)>) -> Result<Seq<u8>, ErrorModel>
    decreases entries, 2nat,
{
    then(map_header(entries.len()), encode_entries(entries))
}

/// The concatenated encodings of the entries of a map.
pub open spec fn encode_entries(entries: Seq<(Seq<char>, Value)>) -> Result<Seq<u8>, ErrorModel>
    decreases entries, 1nat,
{
    if entries.len() == 0 {
        Ok(Seq::empty())
    } else {
        then(
            then(encode_string(entries[0].0), encode(entries[0].1)),
            encode_entries(entries.subrange(1, entries.len() as int)),
        )
    }
}


// ---------------------------------------------------------------- decoding

/// The outcome of reading a value off the front of a byte sequence: the
/// value and the number of bytes it took, an error, or a sequence that ends
/// too early (where a read of the underlying buffer would panic).
pub enum Decoding<T> {
    Done(T, nat),
    Failed(ErrorModel),
    Short,
}

/// The size announced by a marker, and the length of marker and size together.
pub enum Size {
    Of(nat, nat),
    BadMarker(u8),
    Cut,
}

/// What is left of `s` after its first `n` bytes.
pub open spec fn after(s: Seq<u8>, n: nat) -> Seq<u8> {
    if n <= s.len() {
        s.subrange(n as int, s.len() as int)
    } else {
        Seq::empty()
    }
}

/// The same outcome, with the value transformed by `f`.
pub open spec fn map_decoding<A, B>(d: Decoding<A>, f: spec_fn(A) -> B) -> Decoding<B> {
    match d {
        Decoding::Done(a, n) => Decoding::Done(f(a), n),
        Decoding::Failed(e) => Decoding::Failed(e),
        Decoding::Short => Decoding::Short,
    }
}

pub open spec fn is_tiny_int_marker(m: u8) -> bool {
    m <= 0x7F || m >= 0xF0
}

pub open spec fn is_int_marker(m: u8) -> bool {
    is_tiny_int_marker(m) || (0xC8 <= m && m <= 0xCB)
}

pub open spec fn is_string_marker(m: u8) -> bool {
    (0x80 <= m && m <= 0x8F) || m == 0xD0 || m == 0xD1 || m == 0xD2
}

pub open spec fn is_list_marker(m: u8) -> bool {
    (0x90 <= m && m <= 0x9F) || m == 0xD4 || m == 0xD5 || m == 0xD6
}

pub open spec fn is_map_marker(m: u8) -> bool {
    (0xA0 <= m && m <= 0xAF) || m == 0xD8 || m == 0xD9 || m == 0xDA
}

pub open spec fn is_bytes_marker(m: u8) -> bool {
    m == 0xCC || m == 0xCD || m == 0xCE
}

/// `s` starts with the marker and signature of a structure.
pub open spec fn has_signature(s: Seq<u8>, marker: u8, signature: u8) -> bool {
    s.len() >= 2 && s[0] == marker && s[1] == signature
}

/// Reading an integer; a tiny marker is read back as the unsigned byte it is.
pub open spec fn decode_int(s: Seq<u8>) -> Decoding<i64> {
    if s.len() == 0 {
        Decoding::Short
    } else if is_tiny_int_marker(s[0]) {
        Decoding::Done(s[0] as i64, 1)
    } else if s[0] == 0xC8 {
        if s.len() < 2 { Decoding::Short } else { Decoding::Done((s[1] as i8) as i64, 2) }
    } else if s[0] == 0xC9 {
        if s.len() < 3 {
            Decoding::Short
        } else {
            Decoding::Done((u16_from_be(s[1], s[2]) as i16) as i64, 3)
        }
    } else if s[0] == 0xCA {
        if s.len() < 5 {
            Decoding::Short
        } else {
            Decoding::Done((u32_from_be(s.subrange(1, s.len() as int)) as i32) as i64, 5)
        }
    } else if s[0] == 0xCB {
        if s.len() < 9 {
            Decoding::Short
        } else {
            Decoding::Done(u64_from_be(s.subrange(1, s.len() as int)) as i64, 9)
        }
    } else {
        Decoding::Failed(ErrorModel::InvalidTypeMarker("invalid integer marker"@))
    }
}

/// Reading a boolean.
pub open spec fn decode_boolean(s: Seq<u8>) -> Decoding<bool> {
    if s.len() == 0 {
        Decoding::Short
    } else if s[0] == 0xC3 {
        Decoding::Done(true, 1)
    } else if s[0] == 0xC2 {
        Decoding::Done(false, 1)
    } else {
        Decoding::Failed(ErrorModel::InvalidTypeMarker("invalid boolean marker"@))
    }
}

/// Reading null: the marker byte is skipped unchecked.
pub open spec fn decode_null(s: Seq<u8>) -> Decoding<()> {
    if s.len() == 0 { Decoding::Short } else { Decoding::Done((), 1) }
}

/// Reading a float: the marker byte is skipped unchecked, eight bytes follow.
pub open spec fn decode_float(s: Seq<u8>) -> Decoding<u64> {
    if s.len() < 9 {
        Decoding::Short
    } else {
        Decoding::Done(u64_from_be(s.subrange(1, s.len() as int)), 9)
    }
}

/// The size of a string.
pub open spec fn string_size(s: Seq<u8>) -> Size {
    if s.len() == 0 {
        Size::Cut
    } else if 0x80 <= s[0] && s[0] <= 0x8F {
        Size::Of((s[0] & 0x0Fu8) as nat, 1)
    } else if s[0] == 0xD0 {
        if s.len() < 2 { Size::Cut } else { Size::Of(s[1] as nat, 2) }
    } else if s[0] == 0xD1 {
        if s.len() < 3 { Size::Cut } else { Size::Of(u16_from_be(s[1], s[2]) as nat, 3) }
    } else if s[0] == 0xD2 {
        if s.len() < 5 { Size::Cut } else { Size::Of(u32_from_be(s.subrange(1, s.len() as int)) as nat, 5) }
    } else {
        Size::BadMarker(s[0])
    }
}

/// The size of a byte array.
pub open spec fn bytes_size(s: Seq<u8>) -> Size {
    if s.len() == 0 {
        Size::Cut
    } else if s[0] == 0xCC {
        if s.len() < 2 { Size::Cut } else { Size::Of(s[1] as nat, 2) }
    } else if s[0] == 0xCD {
        if s.len() < 3 { Size::Cut } else { Size::Of(u16_from_be(s[1], s[2]) as nat, 3) }
    } else if s[0] == 0xCE {
        if s.len() < 5 { Size::Cut } else { Size::Of(u32_from_be(s.subrange(1, s.len() as int)) as nat, 5) }
    } else {
        Size::BadMarker(s[0])
    }
}

/// The number of elements of a list.
pub open spec fn list_size(s: Seq<u8>) -> Size {
    if s.len() == 0 {
        Size::Cut
    } else if 0x90 <= s[0] && s[0] <= 0x9F {
        Size::Of((s[0] & 0x0Fu8) as nat, 1)
    } else if s[0] == 0xD4 {
        if s.len() < 2 { Size::Cut } else { Size::Of(s[1] as nat, 2) }
    } else if s[0] == 0xD5 {
        if s.len() < 3 { Size::Cut } else { Size::Of(u16_from_be(s[1], s[2]) as nat, 3) }
    } else if s[0] == 0xD6 {
        if s.len() < 5 { Size::Cut } else { Size::Of(u32_from_be(s.subrange(1, s.len() as int)) as nat, 5) }
    } else {
        Size::BadMarker(s[0])
    }
}

/// The number of entries of a map.
pub open spec fn map_size(s: Seq<u8>) -> Size {
    if s.len() == 0 {
        Size::Cut
    } else if 0xA0 <= s[0] && s[0] <= 0xAF {
        Size::Of((s[0] & 0x0Fu8) as nat, 1)
    } else if s[0] == 0xD8 {
        if s.len() < 2 { Size::Cut } else { Size::Of(s[1] as nat, 2) }
    } else if s[0] == 0xD9 {
        if s.len() < 3 { Size::Cut } else { Size::Of(u16_from_be(s[1], s[2]) as nat, 3) }
    } else if s[0] == 0xDA {
        if s.len() < 5 { Size::Cut } else { Size::Of(u32_from_be(s.subrange(1, s.len() as int)) as nat, 5) }
    } else {
        Size::BadMarker(s[0])
    }
}

/// Reading a string: its bytes must be valid UTF-8.
pub open spec fn decode_string(s: Seq<u8>) -> Decoding<Seq<char>> {
    match string_size(s) {
        Size::Cut => Decoding::Short,
        Size::BadMarker(m) => Decoding::Failed(
            ErrorModel::InvalidTypeMarker("invalid "@ + "string"@ + " marker "@ + decimal(m as nat)),
        ),
        Size::Of(n, h) => if s.len() < h + n {
            Decoding::Short
        } else {
            let b = s.subrange(h as int, (h + n) as int);
            if valid_utf8(b) {
                Decoding::Done(decode_utf8(b), h + n)
            } else {
                Decoding::Failed(ErrorModel::DeserializationError(utf8_error_message(b)))
            }
        },
    }
}

/// Reading a byte array.
pub open spec fn decode_bytes(s: Seq<u8>) -> Decoding<Seq<u8>> {
    match bytes_size(s) {
        Size::Cut => Decoding::Short,
        Size::BadMarker(m) => Decoding::Failed(
            ErrorModel::InvalidTypeMarker("invalid "@ + "bytes"@ + " marker "@ + decimal(m as nat)),
        ),
        Size::Of(n, h) => if s.len() < h + n {
            Decoding::Short
        } else {
            Decoding::Done(s.subrange(h as int, (h + n) as int), h + n)
        },
    }
}

/// Reading `k` integers one after the other.
pub open spec fn decode_ints(s: Seq<u8>, k: nat) -> Decoding<Seq<i64>>
    decreases k,
{
    if k == 0 {
        Decoding::Done(Seq::empty(), 0)
    } else {
        match decode_int(s) {
            Decoding::Done(i, n) => match decode_ints(after(s, n), (k - 1) as nat) {
                Decoding::Done(rest, m) => Decoding::Done(seq![i] + rest, n + m),
                Decoding::Failed(e) => Decoding::Failed(e),
                Decoding::Short => Decoding::Short,
            },
            Decoding::Failed(e) => Decoding::Failed(e),
            Decoding::Short => Decoding::Short,
        }
    }
}

/// Reading `k` floats one after the other.
pub open spec fn decode_floats(s: Seq<u8>, k: nat) -> Decoding<Seq<u64>>
    decreases k,
{
    if k == 0 {
        Decoding::Done(Seq::empty(), 0)
    } else {
        match decode_float(s) {
            Decoding::Done(f, n) => match decode_floats(after(s, n), (k - 1) as nat) {
                Decoding::Done(rest, m) => Decoding::Done(seq![f] + rest, n + m),
                Decoding::Failed(e) => Decoding::Failed(e),
                Decoding::Short => Decoding::Short,
            },
            Decoding::Failed(e) => Decoding::Failed(e),
            Decoding::Short => Decoding::Short,
        }
    }
}

/// A structure of integers only, after its marker and signature.
pub open spec fn decode_int_struct(s: Seq<u8>, k: nat) -> Decoding<Seq<i64>> {
    if s.len() < 2 {
        Decoding::Short
    } else {
        match decode_ints(s.subrange(2, s.len() as int), k) {
            Decoding::Done(v, n) => Decoding::Done(v, n + 2),
            Decoding::Failed(e) => Decoding::Failed(e),
            Decoding::Short => Decoding::Short,
        }
    }
}

/// A point: an integer, then `k` floats, after its marker and signature.
pub open spec fn decode_point(s: Seq<u8>, k: nat) -> Decoding<(i64, Seq<u64>)> {
    if s.len() < 2 {
        Decoding::Short
    } else {
        let s1 = s.subrange(2, s.len() as int);
        match decode_int(s1) {
            Decoding::Done(sr_id, n1) => match decode_floats(after(s1, n1), k) {
                Decoding::Done(c, n2) => Decoding::Done((sr_id, c), 2 + n1 + n2),
                Decoding::Failed(e) => Decoding::Failed(e),
                Decoding::Short => Decoding::Short,
            },
            Decoding::Failed(e) => Decoding::Failed(e),
            Decoding::Short => Decoding::Short,
        }
    }
}

/// A date-time with a zone id: two integers and a string, after marker and signature.
pub open spec fn decode_zoned(s: Seq<u8>) -> Decoding<(Seq<i64>, Seq<char>)> {
    if s.len() < 2 {
        Decoding::Short
    } else {
        let s1 = s.subrange(2, s.len() as int);
        match decode_ints(s1, 2) {
            Decoding::Done(v, n1) => match decode_string(after(s1, n1)) {
                Decoding::Done(z, n2) => Decoding::Done((v, z), 2 + n1 + n2),
                Decoding::Failed(e) => Decoding::Failed(e),
                Decoding::Short => Decoding::Short,
            },
            Decoding::Failed(e) => Decoding::Failed(e),
            Decoding::Short => Decoding::Short,
        }
    }
}

/// The index of the first entry with key `k`, or -1.
pub open spec fn key_index<V>(m: Seq<(Seq<char>, V)>, k: Seq<char>) -> int
    decreases m.len(),
{
    if m.len() == 0 {
        -1
    } else if m[0].0 == k {
        0
    } else {
        let i = key_index(m.subrange(1, m.len() as int), k);
        if i < 0 { -1 } else { i + 1 }
    }
}

/// Putting an entry into a map: the value of an existing key is replaced in
/// place, a new key goes to the end.
pub open spec fn map_put<V>(m: Seq<(Seq<char>, V)>, k: Seq<char>, v: V) -> Seq<(Seq<char>, V)> {
    let i = key_index(m, k);
    if i < 0 {
        m.push((k, v))
    } else {
        m.update(i, (k, v))
    }
}

/// The map that putting the entries in order builds from an empty one.
pub open spec fn puts<V>(entries: Seq<(Seq<char>, V)>) -> Seq<(Seq<char>, V)>
    decreases entries.len(),
{
    if entries.len() == 0 {
        Seq::empty()
    } else {
        map_put(puts(entries.drop_last()), entries.last().0, entries.last().1)
    }
}

/// Reading a value of any kind: the marker (and, for a structure, the
/// signature) decides which.
#[verifier::opaque]
pub open spec fn decode(s: Seq<u8>) -> Decoding<Value>
    decreases s.len(), 2nat, 0nat,
{
    if s.len() == 0 {
        Decoding::Short
    } else {
        let m = s[0];
        if is_int_marker(m) {
            map_decoding(decode_int(s), |i: i64| Value::Integer(i))
        } else if m == 0xC1 {
            map_decoding(decode_float(s), |f: u64| Value::Float(f))
        } else if is_string_marker(m) {
            map_decoding(decode_string(s), |t: Seq<char>| Value::String(t))
        } else if is_list_marker(m) {
            map_decoding(decode_list(s), |l: Seq<Value>| Value::List(l))
        } else if is_map_marker(m) {
            map_decoding(decode_dict(s), |d: Seq<(Seq<char>, Value)>| Value::Dict(d))
        } else if m == 0xC2 || m == 0xC3 {
            map_decoding(decode_boolean(s), |b: bool| Value::Boolean(b))
        } else if m == 0xC0 {
            map_decoding(decode_null(s), |u: ()| Value::Null)
        } else if is_bytes_marker(m) {
            map_decoding(decode_bytes(s), |b: Seq<u8>| Value::Bytes(b))
        } else {
            decode_structure(s)
        }
    }
}

/// Reading a structure: the marker and the signature decide which.
#[verifier::opaque]
pub open spec fn decode_structure(s: Seq<u8>) -> Decoding<Value>
    decreases s.len(), 1nat, 1nat,
{
    if has_signature(s, 0xB3, 0x4E) {
        decode_node(s)
    } else if has_signature(s, 0xB5, 0x52) {
        decode_relation(s)
    } else if has_signature(s, 0xB3, 0x72) {
        decode_unbounded_relation(s)
    } else if has_signature(s, 0xB3, 0x58) {
        map_decoding(decode_point(s, 2), |p: (i64, Seq<u64>)| Value::Point2D(p.0, p.1[0], p.1[1]))
    } else if has_signature(s, 0xB4, 0x59) {
        map_decoding(decode_point(s, 3), |p: (i64, Seq<u64>)| Value::Point3D(p.0, p.1[0], p.1[1], p.1[2]))
    } else if has_signature(s, 0xB3, 0x50) {
        decode_path(s)
    } else if has_signature(s, 0xB4, 0x45) {
        map_decoding(decode_int_struct(s, 4), |v: Seq<i64>| Value::Duration(v[0], v[1], v[2], v[3]))
    } else if has_signature(s, 0xB1, 0x44) {
        map_decoding(decode_int_struct(s, 1), |v: Seq<i64>| Value::Date(v[0]))
    } else if has_signature(s, 0xB2, 0x54) {
        map_decoding(decode_int_struct(s, 2), |v: Seq<i64>| Value::Time(v[0], v[1]))
    } else if has_signature(s, 0xB1, 0x74) {
        map_decoding(decode_int_struct(s, 1), |v: Seq<i64>| Value::LocalTime(v[0]))
    } else if has_signature(s, 0xB3, 0x46) {
        map_decoding(decode_int_struct(s, 3), |v: Seq<i64>| Value::DateTime(v[0], v[1], v[2]))
    } else if has_signature(s, 0xB2, 0x64) {
        map_decoding(decode_int_struct(s, 2), |v: Seq<i64>| Value::LocalDateTime(v[0], v[1]))
    } else if has_signature(s, 0xB3, 0x66) {
        map_decoding(decode_zoned(s), |z: (Seq<i64>, Seq<char>)| Value::DateTimeZoneId(z.0[0], z.0[1], z.1))
    } else if s.len() == 0 {
        Decoding::Short
    } else {
        Decoding::Failed(ErrorModel::UnknownType(s[0]))
    }
}

/// Reading a list: its size, then as many values.
#[verifier::opaque]
pub open spec fn decode_list(s: Seq<u8>) -> Decoding<Seq<Value>>
    decreases s.len(), 1nat, 0nat,
{
    match list_size(s) {
        Size::Cut => Decoding::Short,
        Size::BadMarker(m) => Decoding::Failed(
            ErrorModel::InvalidTypeMarker("invalid "@ + "list"@ + " marker "@ + decimal(m as nat)),
        ),
        Size::Of(n, h) => if h <= s.len() && h > 0 {
            match decode_items(after(s, h), n) {
                Decoding::Done(items, c) => Decoding::Done(items, h + c),
                Decoding::Failed(e) => Decoding::Failed(e),
                Decoding::Short => Decoding::Short,
            }
        } else {
            Decoding::Short
        },
    }
}

/// Reading `n` values one after the other.
#[verifier::opaque]
pub open spec fn decode_items(s: Seq<u8>, n: nat) -> Decoding<Seq<Value>>
    decreases s.len(), 3nat, n,
{
    if n == 0 {
        Decoding::Done(Seq::empty(), 0)
    } else {
        match decode(s) {
            Decoding::Done(v, c) => match decode_items(after(s, c), (n - 1) as nat) {
                Decoding::Done(rest, c2) => Decoding::Done(seq![v] + rest, c + c2),
                Decoding::Failed(e) => Decoding::Failed(e),
                Decoding::Short => Decoding::Short,
            },
            Decoding::Failed(e) => Decoding::Failed(e),
            Decoding::Short => Decoding::Short,
        }
    }
}

/// Reading a map: its size, then as many keys and values; each entry is put
/// into the map in turn.
#[verifier::opaque]
pub open spec fn decode_dict(s: Seq<u8>) -> Decoding<Seq<(Seq<char>, Value)>>
    decreases s.len(), 1nat, 0nat,
{
    match map_size(s) {
        Size::Cut => Decoding::Short,
        Size::BadMarker(m) => Decoding::Failed(
            ErrorModel::InvalidTypeMarker("invalid "@ + "map"@ + " marker "@ + decimal(m as nat)),
        ),
        Size::Of(n, h) => if h <= s.len() && h > 0 {
            match decode_entries(after(s, h), n) {
                Decoding::Done(raw, c) => Decoding::Done(puts(raw), h + c),
                Decoding::Failed(e) => Decoding::Failed(e),
                Decoding::Short => Decoding::Short,
            }
        } else {
            Decoding::Short
        },
    }
}

/// Reading `n` key-value pairs one after the other.
#[verifier::opaque]
pub open spec fn decode_entries(s: Seq<u8>, n: nat) -> Decoding<Seq<(Seq<char>, Value)>>
    decreases s.len(), 3nat, n,
{
    if n == 0 {
        Decoding::Done(Seq::empty(), 0)
    } else {
        match decode_string(s) {
            Decoding::Done(k, c1) => match decode(after(s, c1)) {
                Decoding::Done(v, c2) => match decode_entries(after(after(s, c1), c2), (n - 1) as nat) {
                    Decoding::Done(rest, c3) => Decoding::Done(seq![(k, v)] + rest, c1 + c2 + c3),
                    Decoding::Failed(e) => Decoding::Failed(e),
                    Decoding::Short => Decoding::Short,
                },
                Decoding::Failed(e) => Decoding::Failed(e),
                Decoding::Short => Decoding::Short,
            },
            Decoding::Failed(e) => Decoding::Failed(e),
            Decoding::Short => Decoding::Short,
        }
    }
}

/// Reading a node: an id, a list of labels and a map of properties.
#[verifier::opaque]
pub open spec fn decode_node(s: Seq<u8>) -> Decoding<Value>
    decreases s.len(), 1nat, 0nat,
{
    if s.len() < 2 {
        Decoding::Short
    } else {
        let s1 = s.subrange(2, s.len() as int);
        match decode_int(s1) {
            Decoding::Done(id, n1) => match decode_list(after(s1, n1)) {
                Decoding::Done(labels, n2) => match decode_dict(after(after(s1, n1), n2)) {
                    Decoding::Done(props, n3) => Decoding::Done(Value::Node(id, labels, props), 2 + n1 + n2 + n3),
                    Decoding::Failed(e) => Decoding::Failed(e),
                    Decoding::Short => Decoding::Short,
                },
                Decoding::Failed(e) => Decoding::Failed(e),
                Decoding::Short => Decoding::Short,
            },
            Decoding::Failed(e) => Decoding::Failed(e),
            Decoding::Short => Decoding::Short,
        }
    }
}

/// Reading a relationship: id, start and end node ids, type and properties.
#[verifier::opaque]
pub open spec fn decode_relation(s: Seq<u8>) -> Decoding<Value>
    decreases s.len(), 1nat, 0nat,
{
    if s.len() < 2 {
        Decoding::Short
    } else {
        let s1 = s.subrange(2, s.len() as int);
        match decode_ints(s1, 3) {
            Decoding::Done(ids, n1) => match decode_string(after(s1, n1)) {
                Decoding::Done(typ, n2) => match decode_dict(after(after(s1, n1), n2)) {
                    Decoding::Done(props, n3) => Decoding::Done(
                        Value::Relation(ids[0], ids[1], ids[2], typ, props),
                        2 + n1 + n2 + n3,
                    ),
                    Decoding::Failed(e) => Decoding::Failed(e),
                    Decoding::Short => Decoding::Short,
                },
                Decoding::Failed(e) => Decoding::Failed(e),
                Decoding::Short => Decoding::Short,
            },
            Decoding::Failed(e) => Decoding::Failed(e),
            Decoding::Short => Decoding::Short,
        }
    }
}

/// Reading a relationship without its end points: id, type and properties.
#[verifier::opaque]
pub open spec fn decode_unbounded_relation(s: Seq<u8>) -> Decoding<Value>
    decreases s.len(), 1nat, 0nat,
{
    if s.len() < 2 {
        Decoding::Short
    } else {
        let s1 = s.subrange(2, s.len() as int);
        match decode_int(s1) {
            Decoding::Done(id, n1) => match decode_string(after(s1, n1)) {
                Decoding::Done(typ, n2) => match decode_dict(after(after(s1, n1), n2)) {
                    Decoding::Done(props, n3) => Decoding::Done(
                        Value::UnboundedRelation(id, typ, props),
                        2 + n1 + n2 + n3,
                    ),
                    Decoding::Failed(e) => Decoding::Failed(e),
                    Decoding::Short => Decoding::Short,
                },
                Decoding::Failed(e) => Decoding::Failed(e),
                Decoding::Short => Decoding::Short,
            },
            Decoding::Failed(e) => Decoding::Failed(e),
            Decoding::Short => Decoding::Short,
        }
    }
}

/// Reading a path: three lists (nodes, relationships, indices).
#[verifier::opaque]
pub open spec fn decode_path(s: Seq<u8>) -> Decoding<Value>
    decreases s.len(), 1nat, 0nat,
{
    if s.len() < 2 {
        Decoding::Short
    } else {
        let s1 = s.subrange(2, s.len() as int);
        match decode_list(s1) {
            Decoding::Done(nodes, n1) => match decode_list(after(s1, n1)) {
                Decoding::Done(rels, n2) => match decode_list(after(after(s1, n1), n2)) {
                    Decoding::Done(ids, n3) => Decoding::Done(Value::Path(nodes, rels, ids), 2 + n1 + n2 + n3),
                    Decoding::Failed(e) => Decoding::Failed(e),
                    Decoding::Short => Decoding::Short,
                },
                Decoding::Failed(e) => Decoding::Failed(e),
                Decoding::Short => Decoding::Short,
            },
            Decoding::Failed(e) => Decoding::Failed(e),
            Decoding::Short => Decoding::Short,
        }
    }
}


// ---------------------------------------------------------------- unfolding

/// The defining equation of `decode`.
pub proof fn lemma_unfold_decode(s: Seq<u8>)
    ensures
        decode(s) == {
            if s.len() == 0 {
                Decoding::Short
            } else {
                let m = s[0];
                if is_int_marker(m) {
                    map_decoding(decode_int(s), |i: i64| Value::Integer(i))
                } else if m == 0xC1 {
                    map_decoding(decode_float(s), |f: u64| Value::Float(f))
                } else if is_string_marker(m) {
                    map_decoding(decode_string(s), |t: Seq<char>| Value::String(t))
                } else if is_list_marker(m) {
                    map_decoding(decode_list(s), |l: Seq<Value>| Value::List(l))
                } else if is_map_marker(m) {
                    map_decoding(decode_dict(s), |d: Seq<(Seq<char>, Value)>| Value::Dict(d))
                } else if m == 0xC2 || m == 0xC3 {
                    map_decoding(decode_boolean(s), |b: bool| Value::Boolean(b))
                } else if m == 0xC0 {
                    map_decoding(decode_null(s), |u: ()| Value::Null)
                } else if is_bytes_marker(m) {
                    map_decoding(decode_bytes(s), |b: Seq<u8>| Value::Bytes(b))
                } else {
                    decode_structure(s)
                }
            }
        },
{
    reveal_with_fuel(decode, 1);
    reveal_with_fuel(decode_list, 1);
    reveal_with_fuel(decode_dict, 1);
    reveal_with_fuel(decode_structure, 1);
}

/// The defining equation of `decode_structure`.
pub proof fn lemma_unfold_decode_structure(s: Seq<u8>)
    ensures
        decode_structure(s) == {
            if has_signature(s, 0xB3, 0x4E) {
                decode_node(s)
            } else if has_signature(s, 0xB5, 0x52) {
                decode_relation(s)
            } else if has_signature(s, 0xB3, 0x72) {
                decode_unbounded_relation(s)
            } else if has_signature(s, 0xB3, 0x58) {
                map_decoding(decode_point(s, 2), |p: (i64, Seq<u64>)| Value::Point2D(p.0, p.1[0], p.1[1]))
            } else if has_signature(s, 0xB4, 0x59) {
                map_decoding(decode_point(s, 3), |p: (i64, Seq<u64>)| Value::Point3D(p.0, p.1[0], p.1[1], p.1[2]))
            } else if has_signature(s, 0xB3, 0x50) {
                decode_path(s)
            } else if has_signature(s, 0xB4, 0x45) {
                map_decoding(decode_int_struct(s, 4), |v: Seq<i64>| Value::Duration(v[0], v[1], v[2], v[3]))
            } else if has_signature(s, 0xB1, 0x44) {
                map_decoding(decode_int_struct(s, 1), |v: Seq<i64>| Value::Date(v[0]))
            } else if has_signature(s, 0xB2, 0x54) {
                map_decoding(decode_int_struct(s, 2), |v: Seq<i64>| Value::Time(v[0], v[1]))
            } else if has_signature(s, 0xB1, 0x74) {
                map_decoding(decode_int_struct(s, 1), |v: Seq<i64>| Value::LocalTime(v[0]))
            } else if has_signature(s, 0xB3, 0x46) {
                map_decoding(decode_int_struct(s, 3), |v: Seq<i64>| Value::DateTime(v[0], v[1], v[2]))
            } else if has_signature(s, 0xB2, 0x64) {
                map_decoding(decode_int_struct(s, 2), |v: Seq<i64>| Value::LocalDateTime(v[0], v[1]))
            } else if has_signature(s, 0xB3, 0x66) {
                map_decoding(decode_zoned(s), |z: (Seq<i64>, Seq<char>)| Value::DateTimeZoneId(z.0[0], z.0[1], z.1))
            } else if s.len() == 0 {
                Decoding::Short
            } else {
                Decoding::Failed(ErrorModel::UnknownType(s[0]))
            }
        },
{
    reveal_with_fuel(decode_structure, 1);
    reveal_with_fuel(decode_node, 1);
    reveal_with_fuel(decode_relation, 1);
    reveal_with_fuel(decode_unbounded_relation, 1);
    reveal_with_fuel(decode_path, 1);
}

/// The defining equation of `decode_list`.
pub proof fn lemma_unfold_decode_list(s: Seq<u8>)
    ensures
        decode_list(s) == {
            match list_size(s) {
                Size::Cut => Decoding::Short,
                Size::BadMarker(m) => Decoding::Failed(
                    ErrorModel::InvalidTypeMarker("invalid "@ + "list"@ + " marker "@ + decimal(m as nat)),
                ),
                Size::Of(n, h) => if h <= s.len() && h > 0 {
                    match decode_items(after(s, h), n) {
                        Decoding::Done(items, c) => Decoding::Done(items, h + c),
                        Decoding::Failed(e) => Decoding::Failed(e),
                        Decoding::Short => Decoding::Short,
                    }
                } else {
                    Decoding::Short
                },
            }
        },
{
    reveal_with_fuel(decode_list, 1);
    reveal_with_fuel(decode_items, 1);
}

/// The defining equation of `decode_items`.
pub proof fn lemma_unfold_decode_items(s: Seq<u8>, n: nat)
    ensures
        decode_items(s, n) == {
            if n == 0 {
                Decoding::Done(Seq::empty(), 0)
            } else {
                match decode(s) {
                    Decoding::Done(v, c) => match decode_items(after(s, c), (n - 1) as nat) {
                        Decoding::Done(rest, c2) => Decoding::Done(seq![v] + rest, c + c2),
                        Decoding::Failed(e) => Decoding::Failed(e),
                        Decoding::Short => Decoding::Short,
                    },
                    Decoding::Failed(e) => Decoding::Failed(e),
                    Decoding::Short => Decoding::Short,
                }
            }
        },
{
    reveal_with_fuel(decode_items, 1);
    reveal_with_fuel(decode, 1);
}

/// The defining equation of `decode_dict`.
pub proof fn lemma_unfold_decode_dict(s: Seq<u8>)
    ensures
        decode_dict(s) == {
            match map_size(s) {
                Size::Cut => Decoding::Short,
                Size::BadMarker(m) => Decoding::Failed(
                    ErrorModel::InvalidTypeMarker("invalid "@ + "map"@ + " marker "@ + decimal(m as nat)),
                ),
                Size::Of(n, h) => if h <= s.len() && h > 0 {
                    match decode_entries(after(s, h), n) {
                        Decoding::Done(raw, c) => Decoding::Done(puts(raw), h + c),
                        Decoding::Failed(e) => Decoding::Failed(e),
                        Decoding::Short => Decoding::Short,
                    }
                } else {
                    Decoding::Short
                },
            }
        },
{
    reveal_with_fuel(decode_dict, 1);
    reveal_with_fuel(decode_entries, 1);
}

/// The defining equation of `decode_entries`.
pub proof fn lemma_unfold_decode_entries(s: Seq<u8>, n: nat)
    ensures
        decode_entries(s, n) == {
            if n == 0 {
                Decoding::Done(Seq::empty(), 0)
            } else {
                match decode_string(s) {
                    Decoding::Done(k, c1) => match decode(after(s, c1)) {
                        Decoding::Done(v, c2) => match decode_entries(after(after(s, c1), c2), (n - 1) as nat) {
                            Decoding::Done(rest, c3) => Decoding::Done(seq![(k, v)] + rest, c1 + c2 + c3),
                            Decoding::Failed(e) => Decoding::Failed(e),
                            Decoding::Short => Decoding::Short,
                        },
                        Decoding::Failed(e) => Decoding::Failed(e),
                        Decoding::Short => Decoding::Short,
                    },
                    Decoding::Failed(e) => Decoding::Failed(e),
                    Decoding::Short => Decoding::Short,
                }
            }
        },
{
    reveal_with_fuel(decode_entries, 1);
    reveal_with_fuel(decode, 1);
}

/// The defining equation of `decode_node`.
pub proof fn lemma_unfold_decode_node(s: Seq<u8>)
    ensures
        decode_node(s) == {
            if s.len() < 2 {
                Decoding::Short
            } else {
                let s1 = s.subrange(2, s.len() as int);
                match decode_int(s1) {
                    Decoding::Done(id, n1) => match decode_list(after(s1, n1)) {
                        Decoding::Done(labels, n2) => match decode_dict(after(after(s1, n1), n2)) {
                            Decoding::Done(props, n3) => Decoding::Done(Value::Node(id, labels, props), 2 + n1 + n2 + n3),
                            Decoding::Failed(e) => Decoding::Failed(e),
                            Decoding::Short => Decoding::Short,
                        },
                        Decoding::Failed(e) => Decoding::Failed(e),
                        Decoding::Short => Decoding::Short,
                    },
                    Decoding::Failed(e) => Decoding::Failed(e),
                    Decoding::Short => Decoding::Short,
                }
            }
        },
{
    reveal_with_fuel(decode_node, 1);
    reveal_with_fuel(decode_list, 1);
    reveal_with_fuel(decode_dict, 1);
}

/// The defining equation of `decode_relation`.
pub proof fn lemma_unfold_decode_relation(s: Seq<u8>)
    ensures
        decode_relation(s) == {
            if s.len() < 2 {
                Decoding::Short
            } else {
                let s1 = s.subrange(2, s.len() as int);
                match decode_ints(s1, 3) {
                    Decoding::Done(ids, n1) => match decode_string(after(s1, n1)) {
                        Decoding::Done(typ, n2) => match decode_dict(after(after(s1, n1), n2)) {
                            Decoding::Done(props, n3) => Decoding::Done(
                                Value::Relation(ids[0], ids[1], ids[2], typ, props),
                                2 + n1 + n2 + n3,
                            ),
                            Decoding::Failed(e) => Decoding::Failed(e),
                            Decoding::Short => Decoding::Short,
                        },
                        Decoding::Failed(e) => Decoding::Failed(e),
                        Decoding::Short => Decoding::Short,
                    },
                    Decoding::Failed(e) => Decoding::Failed(e),
                    Decoding::Short => Decoding::Short,
                }
            }
        },
{
    reveal_with_fuel(decode_relation, 1);
    reveal_with_fuel(decode_dict, 1);
}

/// The defining equation of `decode_unbounded_relation`.
pub proof fn lemma_unfold_decode_unbounded_relation(s: Seq<u8>)
    ensures
        decode_unbounded_relation(s) == {
            if s.len() < 2 {
                Decoding::Short
            } else {
                let s1 = s.subrange(2, s.len() as int);
                match decode_int(s1) {
                    Decoding::Done(id, n1) => match decode_string(after(s1, n1)) {
                        Decoding::Done(typ, n2) => match decode_dict(after(after(s1, n1), n2)) {
                            Decoding::Done(props, n3) => Decoding::Done(
                                Value::UnboundedRelation(id, typ, props),
                                2 + n1 + n2 + n3,
                            ),
                            Decoding::Failed(e) => Decoding::Failed(e),
                            Decoding::Short => Decoding::Short,
                        },
                        Decoding::Failed(e) => Decoding::Failed(e),
                        Decoding::Short => Decoding::Short,
                    },
                    Decoding::Failed(e) => Decoding::Failed(e),
                    Decoding::Short => Decoding::Short,
                }
            }
        },
{
    reveal_with_fuel(decode_unbounded_relation, 1);
    reveal_with_fuel(decode_dict, 1);
}

/// The defining equation of `decode_path`.
pub proof fn lemma_unfold_decode_path(s: Seq<u8>)
    ensures
        decode_path(s) == {
            if s.len() < 2 {
                Decoding::Short
            } else {
                let s1 = s.subrange(2, s.len() as int);
                match decode_list(s1) {
                    Decoding::Done(nodes, n1) => match decode_list(after(s1, n1)) {
                        Decoding::Done(rels, n2) => match decode_list(after(after(s1, n1), n2)) {
                            Decoding::Done(ids, n3) => Decoding::Done(Value::Path(nodes, rels, ids), 2 + n1 + n2 + n3),
                            Decoding::Failed(e) => Decoding::Failed(e),
                            Decoding::Short => Decoding::Short,
                        },
                        Decoding::Failed(e) => Decoding::Failed(e),
                        Decoding::Short => Decoding::Short,
                    },
                    Decoding::Failed(e) => Decoding::Failed(e),
                    Decoding::Short => Decoding::Short,
                }
            }
        },
{
    reveal_with_fuel(decode_path, 1);
    reveal_with_fuel(decode_list, 1);
}

} // verus!
