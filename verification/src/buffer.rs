//! Byte buffers of the `bytes` crate, as the wire format reads and writes them.
use vstd::prelude::*;
use bytes::{Buf, BufMut, Bytes, BytesMut};

verus! {

#[verifier::external_type_specification]
#[verifier::external_body]
pub struct ExBytes(bytes::Bytes);

#[verifier::external_type_specification]
#[verifier::external_body]
pub struct ExBytesMut(bytes::BytesMut);

/// The two bytes of `v`, most significant first.
pub open spec fn be_u16(v: u16) -> Seq<u8> {
    seq![(v >> 8u16) as u8, v as u8]
}

/// The four bytes of `v`, most significant first.
pub open spec fn be_u32(v: u32) -> Seq<u8> {
    seq![(v >> 24u32) as u8, (v >> 16u32) as u8, (v >> 8u32) as u8, v as u8]
}

/// The eight bytes of `v`, most significant first.
pub open spec fn be_u64(v: u64) -> Seq<u8> {
    seq![
        (v >> 56u64) as u8, (v >> 48u64) as u8, (v >> 40u64) as u8, (v >> 32u64) as u8,
        (v >> 24u64) as u8, (v >> 16u64) as u8, (v >> 8u64) as u8, v as u8,
    ]
}

/// The number whose big-endian bytes are `b0 b1`.
pub open spec fn u16_from_be(b0: u8, b1: u8) -> u16 {
    ((b0 as u16) << 8u16) | (b1 as u16)
}

/// The number whose big-endian bytes are the first four of `s`.
pub open spec fn u32_from_be(s: Seq<u8>) -> u32 {
    ((s[0] as u32) << 24u32) | ((s[1] as u32) << 16u32) | ((s[2] as u32) << 8u32) | (s[3] as u32)
}

/// The number whose big-endian bytes are the first eight of `s`.
pub open spec fn u64_from_be(s: Seq<u8>) -> u64 {
    ((s[0] as u64) << 56u64) | ((s[1] as u64) << 48u64) | ((s[2] as u64) << 40u64)
        | ((s[3] as u64) << 32u64) | ((s[4] as u64) << 24u64) | ((s[5] as u64) << 16u64)
        | ((s[6] as u64) << 8u64) | (s[7] as u64)
}

/// The bytes that a `Bytes` holds, first to last.
pub uninterp spec fn bytes_content(b: Bytes) -> Seq<u8>;

/// The bytes that a `BytesMut` holds, first to last.
pub uninterp spec fn buffer_content(b: BytesMut) -> Seq<u8>;

/// `Clone` of a `Bytes`: another handle on the same bytes.
pub assume_specification[ <bytes::Bytes as Clone>::clone ](b: &Bytes) -> (r: Bytes)
    ensures
        bytes_content(r) == bytes_content(*b),
;

/// `BytesMut::new`: an empty buffer.
#[verifier::external_body]
pub(crate) fn buffer_new() -> (b: BytesMut)
    ensures
        buffer_content(b) == Seq::<u8>::empty(),
{
    BytesMut::new()
}

/// `BufMut::put_u8` on a `BytesMut`: appends the byte.
#[verifier::external_body]
pub(crate) fn put_u8(b: &mut BytesMut, v: u8)
    ensures
        buffer_content(*final(b)) == buffer_content(*old(b)).push(v),
{
    b.put_u8(v)
}

/// `Buf::get_u8` on a `Bytes`: takes the first byte off the front.
#[verifier::external_body]
pub(crate) fn get_u8(b: &mut Bytes) -> (v: u8)
    requires
        bytes_content(*old(b)).len() >= 1,
    ensures
        v == bytes_content(*old(b))[0],
        bytes_content(*final(b)) == bytes_content(*old(b)).subrange(1, bytes_content(*old(b)).len() as int),
{
    b.get_u8()
}


/// `BufMut::put_i8` on a `BytesMut`: appends the byte of `v`.
#[verifier::external_body]
pub(crate) fn put_i8(b: &mut BytesMut, v: i8)
    ensures
        buffer_content(*final(b)) == buffer_content(*old(b)).push(v as u8),
{
    b.put_i8(v)
}

/// `BufMut::put_u16` on a `BytesMut`: appends `v` big-endian.
#[verifier::external_body]
pub(crate) fn put_u16(b: &mut BytesMut, v: u16)
    ensures
        buffer_content(*final(b)) == buffer_content(*old(b)) + be_u16(v),
{
    b.put_u16(v)
}

/// `BufMut::put_i16` on a `BytesMut`: appends `v` big-endian, two's complement.
#[verifier::external_body]
pub(crate) fn put_i16(b: &mut BytesMut, v: i16)
    ensures
        buffer_content(*final(b)) == buffer_content(*old(b)) + be_u16(v as u16),
{
    b.put_i16(v)
}

/// `BufMut::put_u32` on a `BytesMut`: appends `v` big-endian.
#[verifier::external_body]
pub(crate) fn put_u32(b: &mut BytesMut, v: u32)
    ensures
        buffer_content(*final(b)) == buffer_content(*old(b)) + be_u32(v),
{
    b.put_u32(v)
}

/// `BufMut::put_i32` on a `BytesMut`: appends `v` big-endian, two's complement.
#[verifier::external_body]
pub(crate) fn put_i32(b: &mut BytesMut, v: i32)
    ensures
        buffer_content(*final(b)) == buffer_content(*old(b)) + be_u32(v as u32),
{
    b.put_i32(v)
}

/// `BufMut::put_u64` on a `BytesMut`: appends `v` big-endian.
#[verifier::external_body]
pub(crate) fn put_u64(b: &mut BytesMut, v: u64)
    ensures
        buffer_content(*final(b)) == buffer_content(*old(b)) + be_u64(v),
{
    b.put_u64(v)
}

/// `BufMut::put_i64` on a `BytesMut`: appends `v` big-endian, two's complement.
#[verifier::external_body]
pub(crate) fn put_i64(b: &mut BytesMut, v: i64)
    ensures
        buffer_content(*final(b)) == buffer_content(*old(b)) + be_u64(v as u64),
{
    b.put_i64(v)
}

/// `BufMut::put_slice` on a `BytesMut`: appends the bytes of `src`.
#[verifier::external_body]
pub(crate) fn put_slice(b: &mut BytesMut, src: &[u8])
    ensures
        buffer_content(*final(b)) == buffer_content(*old(b)) + src@,
{
    b.put_slice(src)
}

/// `BufMut::put` of a `Bytes` into a `BytesMut`: appends what `src` holds.
#[verifier::external_body]
pub(crate) fn put_bytes(b: &mut BytesMut, src: Bytes)
    ensures
        buffer_content(*final(b)) == buffer_content(*old(b)) + bytes_content(src),
{
    b.put(src)
}

/// `BytesMut::freeze`: the same bytes, as an immutable `Bytes`.
#[verifier::external_body]
pub(crate) fn freeze(b: BytesMut) -> (r: Bytes)
    ensures
        bytes_content(r) == buffer_content(b),
{
    b.freeze()
}

/// `Bytes::len`.
#[verifier::external_body]
pub(crate) fn bytes_len(b: &Bytes) -> (n: usize)
    ensures
        n == bytes_content(*b).len(),
{
    b.len()
}

/// The slice that a `Bytes` dereferences to.
#[verifier::external_body]
pub(crate) fn bytes_as_slice(b: &Bytes) -> (s: &[u8])
    ensures
        s@ == bytes_content(*b),
{
    &b[..]
}

/// `Bytes::to_vec` (through the slice it dereferences to): a copy of the bytes.
#[verifier::external_body]
pub(crate) fn bytes_to_vec(b: &Bytes) -> (v: Vec<u8>)
    ensures
        v@ == bytes_content(*b),
{
    b.to_vec()
}

/// `Bytes::split_to`: the first `at` bytes are handed out and removed.
#[verifier::external_body]
pub(crate) fn split_to(b: &mut Bytes, at: usize) -> (r: Bytes)
    requires
        at <= bytes_content(*old(b)).len(),
    ensures
        bytes_content(r) == bytes_content(*old(b)).subrange(0, at as int),
        bytes_content(*final(b)) == bytes_content(*old(b)).subrange(at as int, bytes_content(*old(b)).len() as int),
{
    b.split_to(at)
}

/// `Buf::get_i8` on a `Bytes`: takes the first byte off the front, as signed.
#[verifier::external_body]
pub(crate) fn get_i8(b: &mut Bytes) -> (v: i8)
    requires
        bytes_content(*old(b)).len() >= 1,
    ensures
        v == bytes_content(*old(b))[0] as i8,
        bytes_content(*final(b)) == bytes_content(*old(b)).subrange(1, bytes_content(*old(b)).len() as int),
{
    b.get_i8()
}

/// `Buf::get_u16` on a `Bytes`: takes two bytes off the front, big-endian.
#[verifier::external_body]
pub(crate) fn get_u16(b: &mut Bytes) -> (v: u16)
    requires
        bytes_content(*old(b)).len() >= 2,
    ensures
        v == u16_from_be(bytes_content(*old(b))[0], bytes_content(*old(b))[1]),
        bytes_content(*final(b)) == bytes_content(*old(b)).subrange(2, bytes_content(*old(b)).len() as int),
{
    b.get_u16()
}

/// `Buf::get_i16` on a `Bytes`: takes two bytes off the front, big-endian, two's complement.
#[verifier::external_body]
pub(crate) fn get_i16(b: &mut Bytes) -> (v: i16)
    requires
        bytes_content(*old(b)).len() >= 2,
    ensures
        v == u16_from_be(bytes_content(*old(b))[0], bytes_content(*old(b))[1]) as i16,
        bytes_content(*final(b)) == bytes_content(*old(b)).subrange(2, bytes_content(*old(b)).len() as int),
{
    b.get_i16()
}

/// `Buf::get_u32` on a `Bytes`: takes four bytes off the front, big-endian.
#[verifier::external_body]
pub(crate) fn get_u32(b: &mut Bytes) -> (v: u32)
    requires
        bytes_content(*old(b)).len() >= 4,
    ensures
        v == u32_from_be(bytes_content(*old(b))),
        bytes_content(*final(b)) == bytes_content(*old(b)).subrange(4, bytes_content(*old(b)).len() as int),
{
    b.get_u32()
}

/// `Buf::get_i32` on a `Bytes`: takes four bytes off the front, big-endian, two's complement.
#[verifier::external_body]
pub(crate) fn get_i32(b: &mut Bytes) -> (v: i32)
    requires
        bytes_content(*old(b)).len() >= 4,
    ensures
        v == u32_from_be(bytes_content(*old(b))) as i32,
        bytes_content(*final(b)) == bytes_content(*old(b)).subrange(4, bytes_content(*old(b)).len() as int),
{
    b.get_i32()
}

/// `Buf::get_u64` on a `Bytes`: takes eight bytes off the front, big-endian.
#[verifier::external_body]
pub(crate) fn get_u64(b: &mut Bytes) -> (v: u64)
    requires
        bytes_content(*old(b)).len() >= 8,
    ensures
        v == u64_from_be(bytes_content(*old(b))),
        bytes_content(*final(b)) == bytes_content(*old(b)).subrange(8, bytes_content(*old(b)).len() as int),
{
    b.get_u64()
}

/// `Buf::get_i64` on a `Bytes`: takes eight bytes off the front, big-endian, two's complement.
#[verifier::external_body]
pub(crate) fn get_i64(b: &mut Bytes) -> (v: i64)
    requires
        bytes_content(*old(b)).len() >= 8,
    ensures
        v == u64_from_be(bytes_content(*old(b))) as i64,
        bytes_content(*final(b)) == bytes_content(*old(b)).subrange(8, bytes_content(*old(b)).len() as int),
{
    b.get_i64()
}

} // verus!
