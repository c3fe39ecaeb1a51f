//! What a read gives back of a write: decoding the encoding of a value, with
//! anything after it, gives the value back and stops where the encoding ends.
use vstd::prelude::*;
use crate::buffer::{be_u16, be_u32, be_u64, u16_from_be, u32_from_be, u64_from_be};
use vstd::utf8::{encode_utf8, encode_utf8_decode_utf8, encode_utf8_valid_utf8};
use crate::facts::{distinct_keys, lemma_key_index};
use crate::model::Value;
use crate::wire::{lemma_unfold_decode, lemma_unfold_decode_dict, lemma_unfold_decode_entries, lemma_unfold_decode_items, lemma_unfold_decode_list, lemma_unfold_decode_node, lemma_unfold_decode_path, lemma_unfold_decode_relation, lemma_unfold_decode_structure, lemma_unfold_decode_unbounded_relation, decode, decode_dict, decode_entries, decode_items, decode_list, decode_structure, encode, encode_dict, encode_element, encode_entries, encode_items, encode_list, map_put, puts, after, decode_floats, decode_int_struct, decode_ints, decode_point, decode_zoned, encode_int_struct, encode_point2d, encode_point3d, encode_zoned, bytes_header, bytes_size, decode_bytes, decode_float, decode_int, decode_string, encode_bytes, encode_float, encode_int, encode_string, is_bytes_marker, is_int_marker, is_list_marker, is_map_marker, is_string_marker, list_header, list_size, map_header, map_size, string_header, string_size, Decoding, Size};

verus! {

/// The integers whose encoding reads back as themselves: the tiny form of
/// -16..=-1 is read back as the unsigned byte, 240..=255.
pub open spec fn int_reads_back(i: i64) -> bool {
    !(-16 <= i <= -1)
}

/// The two big-endian bytes of a `u16` read back as it.
pub proof fn lemma_u16_read_back(v: u16)
    ensures
        u16_from_be(be_u16(v)[0], be_u16(v)[1]) == v,
{
    assert(((((v >> 8u16) as u8) as u16) << 8u16) | ((v as u8) as u16) == v) by (bit_vector);
}

/// The four big-endian bytes of a `u32`, at the front of `s`, read back as it.
pub proof fn lemma_u32_read_back(v: u32, s: Seq<u8>)
    requires
        s.len() >= 4,
        forall|k: int| 0 <= k < 4 ==> s[k] == be_u32(v)[k],
    ensures
        u32_from_be(s) == v,
{
    assert(s[0] == (v >> 24u32) as u8 && s[1] == (v >> 16u32) as u8 && s[2] == (v >> 8u32) as u8 && s[3] == v as u8);
    let (b0, b1, b2, b3) = (s[0], s[1], s[2], s[3]);
    assert(((b0 as u32) << 24u32) | ((b1 as u32) << 16u32) | ((b2 as u32) << 8u32) | (b3 as u32) == v) by (bit_vector)
        requires
            b0 == (v >> 24u32) as u8,
            b1 == (v >> 16u32) as u8,
            b2 == (v >> 8u32) as u8,
            b3 == v as u8,
    ;
}

/// The eight big-endian bytes of a `u64`, at the front of `s`, read back as it.
pub proof fn lemma_u64_read_back(v: u64, s: Seq<u8>)
    requires
        s.len() >= 8,
        forall|k: int| 0 <= k < 8 ==> s[k] == be_u64(v)[k],
    ensures
        u64_from_be(s) == v,
{
    assert(s[0] == (v >> 56u64) as u8 && s[1] == (v >> 48u64) as u8 && s[2] == (v >> 40u64) as u8
        && s[3] == (v >> 32u64) as u8);
    assert(s[4] == (v >> 24u64) as u8 && s[5] == (v >> 16u64) as u8 && s[6] == (v >> 8u64) as u8
        && s[7] == v as u8);
    let (b0, b1, b2, b3, b4, b5, b6, b7) = (s[0], s[1], s[2], s[3], s[4], s[5], s[6], s[7]);
    assert(((b0 as u64) << 56u64) | ((b1 as u64) << 48u64) | ((b2 as u64) << 40u64) | ((b3 as u64) << 32u64)
        | ((b4 as u64) << 24u64) | ((b5 as u64) << 16u64) | ((b6 as u64) << 8u64) | (b7 as u64) == v) by (bit_vector)
        requires
            b0 == (v >> 56u64) as u8,
            b1 == (v >> 48u64) as u8,
            b2 == (v >> 40u64) as u8,
            b3 == (v >> 32u64) as u8,
            b4 == (v >> 24u64) as u8,
            b5 == (v >> 16u64) as u8,
            b6 == (v >> 8u64) as u8,
            b7 == v as u8,
    ;
}

/// An integer that reads back is read back from its encoding, whatever
/// follows it; its first byte is an integer marker.
pub proof fn lemma_int_read_back(i: i64, rest: Seq<u8>)
    requires
        int_reads_back(i),
    ensures
        decode_int(encode_int(i) + rest) == Decoding::Done(i, encode_int(i).len()),
        is_int_marker((encode_int(i) + rest)[0]),
{
    let e = encode_int(i);
    let s = e + rest;
    if -16 <= i <= 127 {
        assert(0 <= i <= 127);
        assert(((i as u8) as i64) == i && (i as u8) <= 0x7Fu8) by (bit_vector)
            requires
                0 <= i <= 127,
        ;
    } else if -128 <= i <= -17 {
        let b = (i as i8) as u8;
        assert(s[1] == b);
        assert(((b as i8) as i64) == i) by (bit_vector)
            requires
                -128 <= i <= -17,
                b == (i as i8) as u8,
        ;
    } else if -32_768 <= i <= 32_767 {
        let x = (i as i16) as u16;
        lemma_u16_read_back(x);
        assert(s[1] == be_u16(x)[0] && s[2] == be_u16(x)[1]);
        assert(((x as i16) as i64) == i) by (bit_vector)
            requires
                -32_768 <= i <= 32_767,
                x == (i as i16) as u16,
        ;
    } else if -2_147_483_648 <= i <= 2_147_483_647 {
        let x = (i as i32) as u32;
        let t = s.subrange(1, s.len() as int);
        lemma_u32_read_back(x, t);
        assert(((x as i32) as i64) == i) by (bit_vector)
            requires
                -2_147_483_648 <= i <= 2_147_483_647,
                x == (i as i32) as u32,
        ;
    } else {
        let x = i as u64;
        let t = s.subrange(1, s.len() as int);
        lemma_u64_read_back(x, t);
        assert((x as i64) == i) by (bit_vector)
            requires
                x == i as u64,
        ;
    }
}

/// A float is read back from its encoding, whatever follows it.
pub proof fn lemma_float_read_back(bits: u64, rest: Seq<u8>)
    ensures
        decode_float(encode_float(bits) + rest) == Decoding::Done(bits, 9),
        (encode_float(bits) + rest)[0] == 0xC1,
{
    let s = encode_float(bits) + rest;
    lemma_u64_read_back(bits, s.subrange(1, s.len() as int));
}

/// The size that a string header announces is read back, whatever follows it.
pub proof fn lemma_string_header_read_back(n: nat, tail: Seq<u8>)
    requires
        string_header(n) is Ok,
    ensures
        string_size(string_header(n)->Ok_0 + tail) == Size::Of(n, string_header(n)->Ok_0.len()),
        is_string_marker((string_header(n)->Ok_0 + tail)[0]),
{
    let s = string_header(n)->Ok_0 + tail;
    if n <= 15 {
        let k = n as u8;
        assert(0x80u8 <= (0x80u8 | k) <= 0x8Fu8 && ((0x80u8 | k) & 0x0Fu8) == k) by (bit_vector)
            requires
                k <= 15,
        ;
    } else if n <= 255 {
    } else if n <= 65_535 {
        lemma_u16_read_back(n as u16);
    } else {
        lemma_u32_read_back(n as u32, s.subrange(1, s.len() as int));
    }
}

/// The size that a byte array header announces is read back, whatever
/// follows it.
pub proof fn lemma_bytes_header_read_back(n: nat, tail: Seq<u8>)
    requires
        bytes_header(n) is Ok,
    ensures
        bytes_size(bytes_header(n)->Ok_0 + tail) == Size::Of(n, bytes_header(n)->Ok_0.len()),
        is_bytes_marker((bytes_header(n)->Ok_0 + tail)[0]),
{
    let s = bytes_header(n)->Ok_0 + tail;
    if n <= 255 {
    } else if n <= 65_535 {
        lemma_u16_read_back(n as u16);
    } else {
        lemma_u32_read_back(n as u32, s.subrange(1, s.len() as int));
    }
}

/// The size that a list header announces is read back, whatever follows it.
pub proof fn lemma_list_header_read_back(n: nat, tail: Seq<u8>)
    requires
        list_header(n) is Ok,
    ensures
        list_size(list_header(n)->Ok_0 + tail) == Size::Of(n, list_header(n)->Ok_0.len()),
        is_list_marker((list_header(n)->Ok_0 + tail)[0]),
        list_header(n)->Ok_0.len() > 0,
{
    let s = list_header(n)->Ok_0 + tail;
    if n <= 15 {
        let k = n as u8;
        assert(0x90u8 <= (0x90u8 | k) <= 0x9Fu8 && ((0x90u8 | k) & 0x0Fu8) == k) by (bit_vector)
            requires
                k <= 15,
        ;
    } else if n <= 255 {
    } else if n <= 65_535 {
        lemma_u16_read_back(n as u16);
    } else {
        lemma_u32_read_back(n as u32, s.subrange(1, s.len() as int));
    }
}

/// The size that a map header announces is read back, whatever follows it.
pub proof fn lemma_map_header_read_back(n: nat, tail: Seq<u8>)
    requires
        map_header(n) is Ok,
    ensures
        map_size(map_header(n)->Ok_0 + tail) == Size::Of(n, map_header(n)->Ok_0.len()),
        is_map_marker((map_header(n)->Ok_0 + tail)[0]),
        map_header(n)->Ok_0.len() > 0,
{
    let s = map_header(n)->Ok_0 + tail;
    if n <= 15 {
        let k = n as u8;
        assert(0xA0u8 <= (0xA0u8 | k) <= 0xAFu8 && ((0xA0u8 | k) & 0x0Fu8) == k) by (bit_vector)
            requires
                k <= 15,
        ;
    } else if n <= 255 {
    } else if n <= 65_535 {
        lemma_u16_read_back(n as u16);
    } else {
        lemma_u32_read_back(n as u32, s.subrange(1, s.len() as int));
    }
}

/// A string is read back from its encoding, whatever follows it.
pub proof fn lemma_string_read_back(t: Seq<char>, rest: Seq<u8>)
    requires
        encode_string(t) is Ok,
    ensures
        decode_string(encode_string(t)->Ok_0 + rest) == Decoding::Done(t, encode_string(t)->Ok_0.len()),
        is_string_marker((encode_string(t)->Ok_0 + rest)[0]),
{
    let b = encode_utf8(t);
    let h = string_header(b.len())->Ok_0;
    let s = encode_string(t)->Ok_0 + rest;
    assert(s =~= h + (b + rest));
    lemma_string_header_read_back(b.len(), b + rest);
    assert(s.subrange(h.len() as int, (h.len() + b.len()) as int) =~= b);
    encode_utf8_valid_utf8(t);
    encode_utf8_decode_utf8(t);
}

/// A byte array is read back from its encoding, whatever follows it.
pub proof fn lemma_bytes_read_back(b: Seq<u8>, rest: Seq<u8>)
    requires
        encode_bytes(b) is Ok,
    ensures
        decode_bytes(encode_bytes(b)->Ok_0 + rest) == Decoding::Done(b, encode_bytes(b)->Ok_0.len()),
        is_bytes_marker((encode_bytes(b)->Ok_0 + rest)[0]),
{
    let h = bytes_header(b.len())->Ok_0;
    let s = encode_bytes(b)->Ok_0 + rest;
    assert(s =~= h + (b + rest));
    lemma_bytes_header_read_back(b.len(), b + rest);
    assert(s.subrange(h.len() as int, (h.len() + b.len()) as int) =~= b);
}

/// The encodings of integers one after the other, first to last.
pub open spec fn encode_ints(f: Seq<i64>) -> Seq<u8>
    decreases f.len(),
{
    if f.len() == 0 {
        Seq::empty()
    } else {
        encode_int(f[0]) + encode_ints(f.subrange(1, f.len() as int))
    }
}

/// The encodings of floats one after the other, first to last.
pub open spec fn encode_floats(f: Seq<u64>) -> Seq<u8>
    decreases f.len(),
{
    if f.len() == 0 {
        Seq::empty()
    } else {
        encode_float(f[0]) + encode_floats(f.subrange(1, f.len() as int))
    }
}

/// Every integer of `f` reads back.
pub open spec fn ints_read_back(f: Seq<i64>) -> bool {
    forall|k: int| 0 <= k < f.len() ==> int_reads_back(#[trigger] f[k])
}

/// Integers that read back are read back from their encodings, whatever
/// follows them.
pub proof fn lemma_ints_read_back(f: Seq<i64>, rest: Seq<u8>)
    requires
        ints_read_back(f),
    ensures
        decode_ints(encode_ints(f) + rest, f.len()) == Decoding::Done(f, encode_ints(f).len()),
    decreases f.len(),
{
    let s = encode_ints(f) + rest;
    if f.len() == 0 {
        assert(f =~= Seq::<i64>::empty());
    } else {
        let tail = f.subrange(1, f.len() as int);
        let e0 = encode_int(f[0]);
        assert(s =~= e0 + (encode_ints(tail) + rest));
        lemma_int_read_back(f[0], encode_ints(tail) + rest);
        assert(after(s, e0.len()) =~= encode_ints(tail) + rest);
        assert(ints_read_back(tail)) by {
            assert forall|k: int| 0 <= k < tail.len() implies int_reads_back(#[trigger] tail[k]) by {
                assert(tail[k] == f[k + 1]);
            }
        }
        lemma_ints_read_back(tail, rest);
        assert(seq![f[0]] + tail =~= f);
    }
}

/// Floats are read back from their encodings, whatever follows them.
pub proof fn lemma_floats_read_back(f: Seq<u64>, rest: Seq<u8>)
    ensures
        decode_floats(encode_floats(f) + rest, f.len()) == Decoding::Done(f, encode_floats(f).len()),
    decreases f.len(),
{
    let s = encode_floats(f) + rest;
    if f.len() == 0 {
        assert(f =~= Seq::<u64>::empty());
    } else {
        let tail = f.subrange(1, f.len() as int);
        let e0 = encode_float(f[0]);
        assert(s =~= e0 + (encode_floats(tail) + rest));
        lemma_float_read_back(f[0], encode_floats(tail) + rest);
        assert(after(s, e0.len()) =~= encode_floats(tail) + rest);
        lemma_floats_read_back(tail, rest);
        assert(seq![f[0]] + tail =~= f);
    }
}

/// Appending an integer to the encodings of integers.
pub proof fn lemma_encode_ints_push(f: Seq<i64>, i: i64)
    ensures
        encode_ints(f.push(i)) == encode_ints(f) + encode_int(i),
    decreases f.len(),
{
    if f.len() == 0 {
        assert(f.push(i).subrange(1, 1) =~= Seq::<i64>::empty());
        assert(f.push(i)[0] == i);
        assert(encode_ints(f.push(i)) == encode_int(i) + encode_ints(Seq::<i64>::empty()));
        assert(encode_int(i) + Seq::<u8>::empty() =~= Seq::<u8>::empty() + encode_int(i));
    } else {
        let tail = f.subrange(1, f.len() as int);
        assert(f.push(i)[0] == f[0]);
        assert(f.push(i).subrange(1, f.len() as int + 1) =~= tail.push(i));
        lemma_encode_ints_push(tail, i);
        assert(encode_int(f[0]) + (encode_ints(tail) + encode_int(i)) =~= encode_int(f[0]) + encode_ints(tail) + encode_int(i));
    }
}

/// A structure of integers is its marker and signature, then the encodings
/// of its fields first to last.
pub proof fn lemma_int_struct_split(marker: u8, signature: u8, f: Seq<i64>)
    ensures
        encode_int_struct(marker, signature, f) == seq![marker, signature] + encode_ints(f),
    decreases f.len(),
{
    if f.len() == 0 {
        assert(seq![marker, signature] + Seq::<u8>::empty() =~= seq![marker, signature]);
    } else {
        lemma_int_struct_split(marker, signature, f.drop_last());
        lemma_encode_ints_push(f.drop_last(), f.last());
        assert(f.drop_last().push(f.last()) =~= f);
        assert(seq![marker, signature] + encode_ints(f.drop_last()) + encode_int(f.last())
            =~= seq![marker, signature] + (encode_ints(f.drop_last()) + encode_int(f.last())));
    }
}

/// A structure of integers that read back is read back, whatever follows it.
pub proof fn lemma_int_struct_read_back(marker: u8, signature: u8, f: Seq<i64>, rest: Seq<u8>)
    requires
        ints_read_back(f),
    ensures
        decode_int_struct(encode_int_struct(marker, signature, f) + rest, f.len())
            == Decoding::Done(f, encode_int_struct(marker, signature, f).len()),
        (encode_int_struct(marker, signature, f) + rest)[0] == marker,
        (encode_int_struct(marker, signature, f) + rest)[1] == signature,
{
    lemma_int_struct_split(marker, signature, f);
    let s = encode_int_struct(marker, signature, f) + rest;
    assert(s.subrange(2, s.len() as int) =~= encode_ints(f) + rest);
    lemma_ints_read_back(f, rest);
}

/// One float, then the others.
proof fn lemma_encode_floats_cons(x: u64, f: Seq<u64>)
    ensures
        encode_floats(seq![x] + f) == encode_float(x) + encode_floats(f),
{
    assert((seq![x] + f)[0] == x);
    assert((seq![x] + f).subrange(1, f.len() as int + 1) =~= f);
}

/// A point is read back from its encoding, whatever follows it.
pub proof fn lemma_point2d_read_back(sr_id: i64, x: u64, y: u64, rest: Seq<u8>)
    requires
        int_reads_back(sr_id),
    ensures
        decode_point(encode_point2d(sr_id, x, y) + rest, 2) == Decoding::Done((sr_id, seq![x, y]), encode_point2d(sr_id, x, y).len()),
        (encode_point2d(sr_id, x, y) + rest)[0] == 0xB3,
        (encode_point2d(sr_id, x, y) + rest)[1] == 0x58,
{
    let f = seq![x, y];
    let s = encode_point2d(sr_id, x, y) + rest;
    lemma_encode_floats_cons(y, Seq::empty());
    assert(seq![y] + Seq::<u64>::empty() =~= seq![y]);
    assert(encode_floats(Seq::<u64>::empty()) == Seq::<u8>::empty());
    lemma_encode_floats_cons(x, seq![y]);
    assert(seq![x] + seq![y] =~= f);
    let tail = encode_floats(f) + rest;
    assert(s.subrange(2, s.len() as int) =~= encode_int(sr_id) + tail);
    lemma_int_read_back(sr_id, tail);
    assert(after(s.subrange(2, s.len() as int), encode_int(sr_id).len()) =~= tail);
    lemma_floats_read_back(f, rest);
}

/// A point is read back from its encoding, whatever follows it.
pub proof fn lemma_point3d_read_back(sr_id: i64, x: u64, y: u64, z: u64, rest: Seq<u8>)
    requires
        int_reads_back(sr_id),
    ensures
        decode_point(encode_point3d(sr_id, x, y, z) + rest, 3) == Decoding::Done((sr_id, seq![x, y, z]), encode_point3d(sr_id, x, y, z).len()),
        (encode_point3d(sr_id, x, y, z) + rest)[0] == 0xB4,
        (encode_point3d(sr_id, x, y, z) + rest)[1] == 0x59,
{
    let f = seq![x, y, z];
    let s = encode_point3d(sr_id, x, y, z) + rest;
    lemma_encode_floats_cons(z, Seq::empty());
    assert(seq![z] + Seq::<u64>::empty() =~= seq![z]);
    assert(encode_floats(Seq::<u64>::empty()) == Seq::<u8>::empty());
    lemma_encode_floats_cons(y, seq![z]);
    assert(seq![y] + seq![z] =~= seq![y, z]);
    lemma_encode_floats_cons(x, seq![y, z]);
    assert(seq![x] + seq![y, z] =~= f);
    let tail = encode_floats(f) + rest;
    assert(s.subrange(2, s.len() as int) =~= encode_int(sr_id) + tail);
    lemma_int_read_back(sr_id, tail);
    assert(after(s.subrange(2, s.len() as int), encode_int(sr_id).len()) =~= tail);
    lemma_floats_read_back(f, rest);
}

/// A date-time with a zone id is read back from its encoding, whatever
/// follows it.
pub proof fn lemma_zoned_read_back(seconds: i64, nanoseconds: i64, tz_id: Seq<char>, rest: Seq<u8>)
    requires
        int_reads_back(seconds),
        int_reads_back(nanoseconds),
        encode_zoned(seconds, nanoseconds, tz_id) is Ok,
    ensures
        decode_zoned(encode_zoned(seconds, nanoseconds, tz_id)->Ok_0 + rest)
            == Decoding::Done((seq![seconds, nanoseconds], tz_id), encode_zoned(seconds, nanoseconds, tz_id)->Ok_0.len()),
        (encode_zoned(seconds, nanoseconds, tz_id)->Ok_0 + rest)[0] == 0xB3,
        (encode_zoned(seconds, nanoseconds, tz_id)->Ok_0 + rest)[1] == 0x66,
{
    let f = seq![seconds, nanoseconds];
    let et = encode_string(tz_id)->Ok_0;
    let s = encode_zoned(seconds, nanoseconds, tz_id)->Ok_0 + rest;
    lemma_int_struct_split(0xB3, 0x66, f);
    assert(s.subrange(2, s.len() as int) =~= encode_ints(f) + (et + rest));
    assert(ints_read_back(f));
    lemma_ints_read_back(f, et + rest);
    assert(after(s.subrange(2, s.len() as int), encode_ints(f).len()) =~= et + rest);
    lemma_string_read_back(tz_id, rest);
}

/// A value that its encoding reads back as: every integer in it reads back,
/// and the keys of every map in it are distinct.
pub open spec fn faithful(v: Value) -> bool
    decreases v, 1nat,
{
    match v {
        Value::Integer(i) => int_reads_back(i),
        Value::List(items) => faithful_items(items),
        Value::Dict(entries) => distinct_keys(entries) && faithful_entries(entries),
        Value::Node(id, labels, props) => int_reads_back(id) && faithful_items(labels) && distinct_keys(props)
            && faithful_entries(props),
        Value::Relation(id, start, end, _, props) => int_reads_back(id) && int_reads_back(start)
            && int_reads_back(end) && distinct_keys(props) && faithful_entries(props),
        Value::UnboundedRelation(id, _, props) => int_reads_back(id) && distinct_keys(props) && faithful_entries(props),
        Value::Path(nodes, rels, ids) => faithful_items(nodes) && faithful_items(rels) && faithful_items(ids),
        Value::Point2D(sr_id, _, _) => int_reads_back(sr_id),
        Value::Point3D(sr_id, _, _, _) => int_reads_back(sr_id),
        Value::Duration(months, days, seconds, nanoseconds) => int_reads_back(months) && int_reads_back(days)
            && int_reads_back(seconds) && int_reads_back(nanoseconds),
        Value::Date(days) => int_reads_back(days),
        Value::Time(nanoseconds, offset) => int_reads_back(nanoseconds) && int_reads_back(offset),
        Value::LocalTime(nanoseconds) => int_reads_back(nanoseconds),
        Value::DateTime(seconds, nanoseconds, offset) => int_reads_back(seconds) && int_reads_back(nanoseconds)
            && int_reads_back(offset),
        Value::LocalDateTime(seconds, nanoseconds) => int_reads_back(seconds) && int_reads_back(nanoseconds),
        Value::DateTimeZoneId(seconds, nanoseconds, _) => int_reads_back(seconds) && int_reads_back(nanoseconds),
        _ => true,
    }
}

/// Every element reads back.
pub open spec fn faithful_items(items: Seq<Value>) -> bool
    decreases items, 0nat,
{
    if items.len() == 0 {
        true
    } else {
        faithful(items[0]) && faithful_items(items.subrange(1, items.len() as int))
    }
}

/// Every value of the entries reads back.
pub open spec fn faithful_entries(entries: Seq<(Seq<char>, Value)>) -> bool
    decreases entries, 0nat,
{
    if entries.len() == 0 {
        true
    } else {
        faithful(entries[0].1) && faithful_entries(entries.subrange(1, entries.len() as int))
    }
}

/// Entries whose values each read back are faithful.
pub proof fn lemma_faithful_entries(entries: Seq<(Seq<char>, Value)>)
    requires
        forall|i: int| 0 <= i < entries.len() ==> faithful(#[trigger] entries[i].1),
    ensures
        faithful_entries(entries),
    decreases entries.len(),
{
    if entries.len() > 0 {
        let tail = entries.subrange(1, entries.len() as int);
        assert forall|i: int| 0 <= i < tail.len() implies faithful(#[trigger] tail[i].1) by {
            assert(tail[i] == entries[i + 1]);
        }
        lemma_faithful_entries(tail);
        assert(faithful(entries[0].1));
    }
}

/// Putting entries with distinct keys one after the other into an empty map
/// gives them back in order.
pub proof fn lemma_puts_distinct<V>(m: Seq<(Seq<char>, V)>)
    requires
        distinct_keys(m),
    ensures
        puts(m) == m,
    decreases m.len(),
{
    if m.len() == 0 {
        assert(m =~= Seq::<(Seq<char>, V)>::empty());
    } else {
        let init = m.drop_last();
        lemma_puts_distinct(init);
        lemma_key_index(init, m.last().0);
        assert forall|j: int| 0 <= j < init.len() implies init[j].0 != m.last().0 by {
            assert(init[j] == m[j]);
        }
        assert(init.push((m.last().0, m.last().1)) =~= m);
    }
}

/// The elements of a list are read back from their encodings, whatever
/// follows them.
pub proof fn lemma_items_read_back(items: Seq<Value>, rest: Seq<u8>)
    requires
        faithful_items(items),
        encode_items(items) is Ok,
    ensures
        decode_items(encode_items(items)->Ok_0 + rest, items.len()) == Decoding::Done(items, encode_items(items)->Ok_0.len()),
    decreases items, 1nat,
{
    let s = encode_items(items)->Ok_0 + rest;
    lemma_unfold_decode_items(s, items.len());
    if items.len() == 0 {
        assert(items =~= Seq::<Value>::empty());
    } else {
        let tail = items.subrange(1, items.len() as int);
        let e0 = encode(items[0])->Ok_0;
        let et = encode_items(tail)->Ok_0;
        assert(s =~= e0 + (et + rest));
        lemma_read_back(items[0], et + rest);
        assert(after(s, e0.len()) =~= et + rest);
        lemma_items_read_back(tail, rest);
        assert(seq![items[0]] + tail =~= items);
    }
}

/// A list is read back from its encoding, whatever follows it.
pub proof fn lemma_list_read_back(items: Seq<Value>, rest: Seq<u8>)
    requires
        faithful_items(items),
        encode_list(items) is Ok,
    ensures
        decode_list(encode_list(items)->Ok_0 + rest) == Decoding::Done(items, encode_list(items)->Ok_0.len()),
        is_list_marker((encode_list(items)->Ok_0 + rest)[0]),
    decreases items, 2nat,
{
    let body = encode_items(items)->Ok_0;
    let h = list_header(items.len())->Ok_0;
    let s = encode_list(items)->Ok_0 + rest;
    assert(s =~= h + (body + rest));
    lemma_list_header_read_back(items.len(), body + rest);
    lemma_unfold_decode_list(s);
    assert(after(s, h.len()) =~= body + rest);
    lemma_items_read_back(items, rest);
}

/// The entries of a map are read back from their encodings, whatever follows
/// them.
pub proof fn lemma_entries_read_back(entries: Seq<(Seq<char>, Value)>, rest: Seq<u8>)
    requires
        faithful_entries(entries),
        encode_entries(entries) is Ok,
    ensures
        decode_entries(encode_entries(entries)->Ok_0 + rest, entries.len())
            == Decoding::Done(entries, encode_entries(entries)->Ok_0.len()),
    decreases entries, 1nat,
{
    let s = encode_entries(entries)->Ok_0 + rest;
    lemma_unfold_decode_entries(s, entries.len());
    if entries.len() == 0 {
        assert(entries =~= Seq::<(Seq<char>, Value)>::empty());
    } else {
        let tail = entries.subrange(1, entries.len() as int);
        let (k, v) = entries[0];
        let ek = encode_string(k)->Ok_0;
        let ev = encode(v)->Ok_0;
        let et = encode_entries(tail)->Ok_0;
        assert(s =~= ek + (ev + (et + rest)));
        lemma_string_read_back(k, ev + (et + rest));
        assert(after(s, ek.len()) =~= ev + (et + rest));
        lemma_read_back(v, et + rest);
        assert(after(after(s, ek.len()), ev.len()) =~= et + rest);
        lemma_entries_read_back(tail, rest);
        assert(seq![(k, v)] + tail =~= entries);
    }
}

/// A map with distinct keys is read back from its encoding, whatever follows
/// it.
pub proof fn lemma_dict_read_back(entries: Seq<(Seq<char>, Value)>, rest: Seq<u8>)
    requires
        distinct_keys(entries),
        faithful_entries(entries),
        encode_dict(entries) is Ok,
    ensures
        decode_dict(encode_dict(entries)->Ok_0 + rest) == Decoding::Done(entries, encode_dict(entries)->Ok_0.len()),
        is_map_marker((encode_dict(entries)->Ok_0 + rest)[0]),
    decreases entries, 2nat,
{
    let body = encode_entries(entries)->Ok_0;
    let h = map_header(entries.len())->Ok_0;
    let s = encode_dict(entries)->Ok_0 + rest;
    assert(s =~= h + (body + rest));
    lemma_map_header_read_back(entries.len(), body + rest);
    lemma_unfold_decode_dict(s);
    assert(after(s, h.len()) =~= body + rest);
    lemma_entries_read_back(entries, rest);
    lemma_puts_distinct(entries);
}

/// A node is read back from its encoding, whatever follows it.
#[verifier::spinoff_prover]
#[verifier::rlimit(80)]
proof fn lemma_node_read_back(v: Value, rest: Seq<u8>)
    requires
        v is Node,
        faithful(v),
        encode_element(v) is Ok,
    ensures
        decode_structure(encode_element(v)->Ok_0 + rest) == Decoding::Done(v, encode_element(v)->Ok_0.len()),
        (encode_element(v)->Ok_0 + rest)[0] == 0xB3,
        (encode_element(v)->Ok_0 + rest)[1] == 0x4E,
    decreases v, 0nat,
{
    let s = encode_element(v)->Ok_0 + rest;
    let s1 = s.subrange(2, s.len() as int);
    let id = v->Node_0;
    let labels = v->Node_1;
    let props = v->Node_2;
    assert(v == Value::Node(id, labels, props));
    let el = encode_list(labels)->Ok_0;
    let ed = encode_dict(props)->Ok_0;
    let ei = encode_int(id);
    assert(s1 =~= ei + (el + (ed + rest)));
    lemma_unfold_decode_structure(s);
    lemma_unfold_decode_node(s);
    lemma_int_read_back(id, el + (ed + rest));
    assert(after(s1, ei.len()) =~= el + (ed + rest));
    lemma_list_read_back(labels, ed + rest);
    assert(after(after(s1, ei.len()), el.len()) =~= ed + rest);
    lemma_dict_read_back(props, rest);
}

/// A relationship is read back from its encoding, whatever follows it.
#[verifier::spinoff_prover]
#[verifier::rlimit(80)]
proof fn lemma_relation_read_back(v: Value, rest: Seq<u8>)
    requires
        v is Relation,
        faithful(v),
        encode_element(v) is Ok,
    ensures
        decode_structure(encode_element(v)->Ok_0 + rest) == Decoding::Done(v, encode_element(v)->Ok_0.len()),
        (encode_element(v)->Ok_0 + rest)[0] == 0xB5,
        (encode_element(v)->Ok_0 + rest)[1] == 0x52,
    decreases v, 0nat,
{
    let s = encode_element(v)->Ok_0 + rest;
    let s1 = s.subrange(2, s.len() as int);
    let id = v->Relation_0;
    let start = v->Relation_1;
    let end = v->Relation_2;
    let typ = v->Relation_3;
    let props = v->Relation_4;
    assert(v == Value::Relation(id, start, end, typ, props));
    let ids = seq![id, start, end];
    let et = encode_string(typ)->Ok_0;
    let ed = encode_dict(props)->Ok_0;
    let ei = encode_ints(ids);
    lemma_encode_ints_push(seq![id, start], end);
    lemma_encode_ints_push(seq![id], start);
    lemma_encode_ints_push(Seq::empty(), id);
    assert(Seq::<i64>::empty().push(id) =~= seq![id]);
    assert(seq![id].push(start) =~= seq![id, start]);
    assert(seq![id, start].push(end) =~= ids);
    assert(seq![0xB5u8, 0x52u8] + encode_int(id) + encode_int(start) + encode_int(end) =~= seq![0xB5u8, 0x52u8] + ei);
    assert(encode_element(v)->Ok_0 == seq![0xB5u8, 0x52u8] + ei + (et + ed));
    assert(s1 =~= ei + (et + (ed + rest)));
    lemma_unfold_decode_structure(s);
    lemma_unfold_decode_relation(s);
    assert(ints_read_back(ids));
    lemma_ints_read_back(ids, et + (ed + rest));
    assert(after(s1, ei.len()) =~= et + (ed + rest));
    lemma_string_read_back(typ, ed + rest);
    assert(after(after(s1, ei.len()), et.len()) =~= ed + rest);
    lemma_dict_read_back(props, rest);
}

/// A relationship without end points is read back from its encoding,
/// whatever follows it.
#[verifier::spinoff_prover]
#[verifier::rlimit(80)]
proof fn lemma_unbounded_relation_read_back(v: Value, rest: Seq<u8>)
    requires
        v is UnboundedRelation,
        faithful(v),
        encode_element(v) is Ok,
    ensures
        decode_structure(encode_element(v)->Ok_0 + rest) == Decoding::Done(v, encode_element(v)->Ok_0.len()),
        (encode_element(v)->Ok_0 + rest)[0] == 0xB3,
        (encode_element(v)->Ok_0 + rest)[1] == 0x72,
    decreases v, 0nat,
{
    let s = encode_element(v)->Ok_0 + rest;
    let s1 = s.subrange(2, s.len() as int);
    let id = v->UnboundedRelation_0;
    let typ = v->UnboundedRelation_1;
    let props = v->UnboundedRelation_2;
    assert(v == Value::UnboundedRelation(id, typ, props));
    let et = encode_string(typ)->Ok_0;
    let ed = encode_dict(props)->Ok_0;
    let ei = encode_int(id);
    assert(s1 =~= ei + (et + (ed + rest)));
    lemma_unfold_decode_structure(s);
    lemma_unfold_decode_unbounded_relation(s);
    lemma_int_read_back(id, et + (ed + rest));
    assert(after(s1, ei.len()) =~= et + (ed + rest));
    lemma_string_read_back(typ, ed + rest);
    assert(after(after(s1, ei.len()), et.len()) =~= ed + rest);
    lemma_dict_read_back(props, rest);
}

/// A path is read back from its encoding, whatever follows it.
#[verifier::spinoff_prover]
#[verifier::rlimit(80)]
proof fn lemma_path_read_back(v: Value, rest: Seq<u8>)
    requires
        v is Path,
        faithful(v),
        encode_element(v) is Ok,
    ensures
        decode_structure(encode_element(v)->Ok_0 + rest) == Decoding::Done(v, encode_element(v)->Ok_0.len()),
        (encode_element(v)->Ok_0 + rest)[0] == 0xB3,
        (encode_element(v)->Ok_0 + rest)[1] == 0x50,
    decreases v, 0nat,
{
    let s = encode_element(v)->Ok_0 + rest;
    let s1 = s.subrange(2, s.len() as int);
    let nodes = v->Path_0;
    let rels = v->Path_1;
    let ids = v->Path_2;
    assert(v == Value::Path(nodes, rels, ids));
    let en = encode_list(nodes)->Ok_0;
    let er = encode_list(rels)->Ok_0;
    let ei = encode_list(ids)->Ok_0;
    assert(encode_element(v)->Ok_0 == seq![0xB3u8, 0x50u8] + (en + (er + ei)));
    assert(s1 =~= en + (er + (ei + rest)));
    lemma_unfold_decode_structure(s);
    lemma_unfold_decode_path(s);
    lemma_list_read_back(nodes, er + (ei + rest));
    assert(after(s1, en.len()) =~= er + (ei + rest));
    lemma_list_read_back(rels, ei + rest);
    assert(after(after(s1, en.len()), er.len()) =~= ei + rest);
    lemma_list_read_back(ids, rest);
}

/// A node, as a value, is read back from its encoding, whatever follows it.
proof fn lemma_node_value_read_back(v: Value, rest: Seq<u8>)
    requires
        v is Node,
        faithful(v),
        encode(v) is Ok,
    ensures
        decode(encode(v)->Ok_0 + rest) == Decoding::Done(v, encode(v)->Ok_0.len()),
    decreases v, 1nat,
{
    assert(encode(v) == encode_element(v));
    lemma_node_read_back(v, rest);
    lemma_unfold_decode(encode(v)->Ok_0 + rest);
}

/// A relationship, as a value, is read back from its encoding, whatever follows it.
proof fn lemma_relation_value_read_back(v: Value, rest: Seq<u8>)
    requires
        v is Relation,
        faithful(v),
        encode(v) is Ok,
    ensures
        decode(encode(v)->Ok_0 + rest) == Decoding::Done(v, encode(v)->Ok_0.len()),
    decreases v, 1nat,
{
    assert(encode(v) == encode_element(v));
    lemma_relation_read_back(v, rest);
    lemma_unfold_decode(encode(v)->Ok_0 + rest);
}

/// A relationship without end points, as a value, is read back from its encoding, whatever follows it.
proof fn lemma_unbounded_relation_value_read_back(v: Value, rest: Seq<u8>)
    requires
        v is UnboundedRelation,
        faithful(v),
        encode(v) is Ok,
    ensures
        decode(encode(v)->Ok_0 + rest) == Decoding::Done(v, encode(v)->Ok_0.len()),
    decreases v, 1nat,
{
    assert(encode(v) == encode_element(v));
    lemma_unbounded_relation_read_back(v, rest);
    lemma_unfold_decode(encode(v)->Ok_0 + rest);
}

/// A path, as a value, is read back from its encoding, whatever follows it.
proof fn lemma_path_value_read_back(v: Value, rest: Seq<u8>)
    requires
        v is Path,
        faithful(v),
        encode(v) is Ok,
    ensures
        decode(encode(v)->Ok_0 + rest) == Decoding::Done(v, encode(v)->Ok_0.len()),
    decreases v, 1nat,
{
    assert(encode(v) == encode_element(v));
    lemma_path_read_back(v, rest);
    lemma_unfold_decode(encode(v)->Ok_0 + rest);
}

/// What a read gives back of a write: a value whose integers read back and
/// whose maps have distinct keys, once encoded, is decoded as itself from
/// the front of any bytes that start with its encoding, which it takes
/// whole.
pub proof fn lemma_read_back(v: Value, rest: Seq<u8>)
    requires
        faithful(v),
        encode(v) is Ok,
    ensures
        decode(encode(v)->Ok_0 + rest) == Decoding::Done(v, encode(v)->Ok_0.len()),
    decreases v, 2nat,
{
    if v is Node {
        lemma_node_value_read_back(v, rest);
    } else if v is Relation {
        lemma_relation_value_read_back(v, rest);
    } else if v is UnboundedRelation {
        lemma_unbounded_relation_value_read_back(v, rest);
    } else if v is Path {
        lemma_path_value_read_back(v, rest);
    } else if v is List || v is Dict {
        lemma_collection_read_back(v, rest);
    } else if v is Null || v is Boolean || v is Integer || v is Float || v is Bytes || v is String {
        lemma_scalar_read_back(v, rest);
    } else if v is Point2D || v is Point3D {
        lemma_point_value_read_back(v, rest);
    } else if v is DateTimeZoneId {
        lemma_zoned_value_read_back(v, rest);
    } else {
        lemma_temporal_read_back(v, rest);
    }
}

/// A list or a map is read back from its encoding, whatever follows it.
proof fn lemma_collection_read_back(v: Value, rest: Seq<u8>)
    requires
        v is List || v is Dict,
        faithful(v),
        encode(v) is Ok,
    ensures
        decode(encode(v)->Ok_0 + rest) == Decoding::Done(v, encode(v)->Ok_0.len()),
    decreases v, 1nat,
{
    let s = encode(v)->Ok_0 + rest;
    lemma_unfold_decode(s);
    match v {
        Value::List(items) => {
            lemma_list_read_back(items, rest);
        },
        Value::Dict(entries) => {
            lemma_dict_read_back(entries, rest);
        },
        _ => {},
    }
}

/// A scalar is read back from its encoding, whatever follows it.
proof fn lemma_scalar_read_back(v: Value, rest: Seq<u8>)
    requires
        v is Null || v is Boolean || v is Integer || v is Float || v is Bytes || v is String,
        faithful(v),
        encode(v) is Ok,
    ensures
        decode(encode(v)->Ok_0 + rest) == Decoding::Done(v, encode(v)->Ok_0.len()),
{
    let s = encode(v)->Ok_0 + rest;
    lemma_unfold_decode(s);
    match v {
        Value::Integer(i) => {
            lemma_int_read_back(i, rest);
        },
        Value::Float(bits) => {
            lemma_float_read_back(bits, rest);
        },
        Value::Bytes(b) => {
            lemma_bytes_read_back(b, rest);
        },
        Value::String(t) => {
            lemma_string_read_back(t, rest);
        },
        _ => {},
    }
}

/// A point is read back from its encoding, whatever follows it.
proof fn lemma_point_value_read_back(v: Value, rest: Seq<u8>)
    requires
        v is Point2D || v is Point3D,
        faithful(v),
    ensures
        encode(v) is Ok,
        decode(encode(v)->Ok_0 + rest) == Decoding::Done(v, encode(v)->Ok_0.len()),
{
    let s = encode(v)->Ok_0 + rest;
    lemma_unfold_decode(s);
    lemma_unfold_decode_structure(s);
    match v {
        Value::Point2D(sr_id, x, y) => {
            lemma_point2d_read_back(sr_id, x, y, rest);
        },
        Value::Point3D(sr_id, x, y, z) => {
            lemma_point3d_read_back(sr_id, x, y, z, rest);
        },
        _ => {},
    }
}

/// A date-time with a zone id is read back from its encoding, whatever
/// follows it.
proof fn lemma_zoned_value_read_back(v: Value, rest: Seq<u8>)
    requires
        v is DateTimeZoneId,
        faithful(v),
        encode(v) is Ok,
    ensures
        decode(encode(v)->Ok_0 + rest) == Decoding::Done(v, encode(v)->Ok_0.len()),
{
    let s = encode(v)->Ok_0 + rest;
    let seconds = v->DateTimeZoneId_0;
    let nanoseconds = v->DateTimeZoneId_1;
    let tz_id = v->DateTimeZoneId_2;
    assert(v == Value::DateTimeZoneId(seconds, nanoseconds, tz_id));
    lemma_unfold_decode(s);
    lemma_unfold_decode_structure(s);
    lemma_zoned_read_back(seconds, nanoseconds, tz_id, rest);
}

/// A temporal value of integers is read back from its encoding, whatever
/// follows it.
proof fn lemma_temporal_read_back(v: Value, rest: Seq<u8>)
    requires
        v is Duration || v is Date || v is Time || v is LocalTime || v is DateTime || v is LocalDateTime,
        faithful(v),
    ensures
        encode(v) is Ok,
        decode(encode(v)->Ok_0 + rest) == Decoding::Done(v, encode(v)->Ok_0.len()),
{
    let s = encode(v)->Ok_0 + rest;
    lemma_unfold_decode(s);
    lemma_unfold_decode_structure(s);
    match v {
        Value::Duration(months, days, seconds, nanoseconds) => {
            let f = seq![months, days, seconds, nanoseconds];
            assert(ints_read_back(f));
            lemma_int_struct_read_back(0xB4, 0x45, f, rest);
        },
        Value::Date(days) => {
            let f = seq![days];
            assert(ints_read_back(f));
            lemma_int_struct_read_back(0xB1, 0x44, f, rest);
        },
        Value::Time(nanoseconds, offset) => {
            let f = seq![nanoseconds, offset];
            assert(ints_read_back(f));
            lemma_int_struct_read_back(0xB2, 0x54, f, rest);
        },
        Value::LocalTime(nanoseconds) => {
            let f = seq![nanoseconds];
            assert(ints_read_back(f));
            lemma_int_struct_read_back(0xB1, 0x74, f, rest);
        },
        Value::DateTime(seconds, nanoseconds, offset) => {
            let f = seq![seconds, nanoseconds, offset];
            assert(ints_read_back(f));
            lemma_int_struct_read_back(0xB3, 0x46, f, rest);
        },
        Value::LocalDateTime(seconds, nanoseconds) => {
            let f = seq![seconds, nanoseconds];
            assert(ints_read_back(f));
            lemma_int_struct_read_back(0xB2, 0x64, f, rest);
        },
        _ => {},
    }
}

} // verus!
