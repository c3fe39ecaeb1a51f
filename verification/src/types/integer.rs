use vstd::prelude::*;
use bytes::{Bytes, BytesMut};
use crate::buffer::{buffer_content, buffer_new, bytes_content, freeze, get_i16, get_i32, get_i64, get_i8, get_u8, put_i16, put_i32, put_i64, put_i8, put_u8};
use crate::errors::Error;
use crate::model::ErrorModel;
use crate::version::Version;
use crate::facts::{lemma_prepend_empty, lemma_prepend_prepend, prepend};
use crate::wire::{after, decode_ints, decode_int, encode_int, is_int_marker, is_tiny_int_marker, parsed, wrote, Decoding, Model};

verus! {

pub const INT_8: u8 = 0xC8;
pub const INT_16: u8 = 0xC9;
pub const INT_32: u8 = 0xCA;
pub const INT_64: u8 = 0xCB;

/// A 64 bit signed integer.
#[derive(Debug, PartialEq, Eq, Clone)]
pub struct BoltInteger {
    pub value: i64,
}

impl Model for BoltInteger {
    type M = i64;

    open spec fn model(&self) -> i64 {
        self.value
    }
}

/// The byte `m`, read as signed, lies in the range of tiny integers.
proof fn lemma_tiny_marker(m: u8)
    ensures
        (-16 <= (m as i8) && (m as i8) <= 127) <==> is_tiny_int_marker(m),
{
    assert((-16 <= (m as i8) && (m as i8) <= 127) <==> (m <= 0x7F || m >= 0xF0)) by (bit_vector);
}

impl BoltInteger {
    pub fn new(value: i64) -> (r: BoltInteger)
        ensures
            r.value == value,
    {
        BoltInteger { value }
    }

    /// The first byte is the marker of an integer.
    pub fn can_parse(_version: Version, input: &[u8]) -> (r: bool)
        requires
            input@.len() >= 1,
        ensures
            r == is_int_marker(input@[0]),
    {
        let marker = input[0];
        let sm = marker as i8;
        proof {
            lemma_tiny_marker(marker);
        }
        (sm >= -16 && sm <= 127) || marker == INT_8 || marker == INT_16 || marker == INT_32
            || marker == INT_64
    }

    /// Reads an integer off the front of `input`.
    pub fn parse(_version: Version, input: &mut Bytes) -> (r: Result<BoltInteger, Error>)
        requires
            !(decode_int(bytes_content(*old(input))) is Short),
        ensures
            parsed(decode_int(bytes_content(*old(input))), bytes_content(*old(input)), bytes_content(*final(input)), r),
    {
        let ghost s = bytes_content(*input);
        let marker = get_u8(input);
        let sm = marker as i8;
        proof {
            lemma_tiny_marker(marker);
        }
        let value: i64 = if sm >= -16 && sm <= 127 {
            marker as i64
        } else if marker == INT_8 {
            get_i8(input) as i64
        } else if marker == INT_16 {
            get_i16(input) as i64
        } else if marker == INT_32 {
            assert(s.subrange(1, s.len() as int) =~= bytes_content(*input));
            get_i32(input) as i64
        } else if marker == INT_64 {
            assert(s.subrange(1, s.len() as int) =~= bytes_content(*input));
            get_i64(input)
        } else {
            return Err(Error::InvalidTypeMarker("invalid integer marker".to_owned()));
        };
        assert(bytes_content(*input) =~= s.subrange(
            match decode_int(s) { Decoding::Done(_, n) => n as int, _ => 0 },
            s.len() as int,
        ));
        Ok(BoltInteger::new(value))
    }

    /// Appends the shortest encoding of the integer.
    pub fn write_into(&self, _version: Version, bytes: &mut BytesMut) -> (r: Result<(), Error>)
        ensures
            wrote(Ok(encode_int(self.value)), buffer_content(*old(bytes)), buffer_content(*final(bytes)), r),
    {
        let v = self.value;
        let ghost b0 = buffer_content(*bytes);
        if -16 <= v && v <= 127 {
            put_u8(bytes, v as u8);
        } else if -128 <= v && v <= -17 {
            put_u8(bytes, INT_8);
            put_i8(bytes, v as i8);
        } else if -32_768 <= v && v <= 32_767 {
            put_u8(bytes, INT_16);
            put_i16(bytes, v as i16);
        } else if -2_147_483_648 <= v && v <= 2_147_483_647 {
            put_u8(bytes, INT_32);
            put_i32(bytes, v as i32);
        } else {
            put_u8(bytes, INT_64);
            put_i64(bytes, v);
        }
        assert(buffer_content(*bytes) =~= b0 + encode_int(v));
        Ok(())
    }

    /// The encoding of the integer.
    pub fn into_bytes(self, version: Version) -> (r: Result<Bytes, Error>)
        ensures
            r matches Ok(b) && bytes_content(b) == encode_int(self.value),
    {
        let mut bytes = buffer_new();
        let _ = self.write_into(version, &mut bytes);
        assert(buffer_content(bytes) =~= encode_int(self.value));
        Ok(freeze(bytes))
    }
}

/// A decoding of `k` integers holds `k` of them and takes no more bytes than there are.
pub proof fn lemma_decode_ints(s: Seq<u8>, k: nat)
    ensures
        decode_ints(s, k) matches Decoding::Done(v, n) ==> v.len() == k && n <= s.len(),
    decreases k,
{
    if k > 0 {
        match decode_int(s) {
            Decoding::Done(i, n) => {
                lemma_decode_ints(after(s, n), (k - 1) as nat);
            },
            _ => {},
        }
    }
}

/// Reads `k` integers one after the other (the fields of a structure).
pub fn parse_int_fields(version: Version, input: &mut Bytes, k: usize) -> (r: Result<Vec<i64>, Error>)
    requires
        !(decode_ints(bytes_content(*old(input)), k as nat) is Short),
    ensures
        match decode_ints(bytes_content(*old(input)), k as nat) {
            Decoding::Done(v, n) => r matches Ok(x) && x@ == v && n <= bytes_content(*old(input)).len()
                && bytes_content(*final(input)) == bytes_content(*old(input)).subrange(n as int, bytes_content(*old(input)).len() as int),
            Decoding::Failed(e) => r matches Err(x) && x@ == e,
            Decoding::Short => false,
        },
{
    let ghost s0 = bytes_content(*input);
    proof {
        lemma_decode_ints(s0, k as nat);
    }
    let mut out: Vec<i64> = Vec::new();
    let mut i: usize = 0;
    let ghost mut c: nat = 0;
    proof {
        lemma_prepend_empty(decode_ints(s0, k as nat));
        assert(s0.subrange(0, s0.len() as int) =~= s0);
    }
    while i < k
        invariant
            i <= k,
            c <= s0.len(),
            bytes_content(*input) == s0.subrange(c as int, s0.len() as int),
            out@.len() == i,
            decode_ints(s0, k as nat) == prepend(out@, c, decode_ints(bytes_content(*input), (k - i) as nat)),
            !(decode_ints(s0, k as nat) is Short),
            s0 == bytes_content(*old(input)),
        decreases k - i,
    {
        let ghost cur = bytes_content(*input);
        let ghost rest_k = (k - i - 1) as nat;
        assert(decode_ints(cur, (k - i) as nat) == match decode_int(cur) {
            Decoding::Done(v, n) => prepend(seq![v], n, decode_ints(after(cur, n), rest_k)),
            Decoding::Failed(e) => Decoding::Failed(e),
            Decoding::Short => Decoding::Short,
        }) by {
            match decode_int(cur) {
                Decoding::Done(v, n) => {
                    match decode_ints(after(cur, n), rest_k) {
                        Decoding::Done(rest, m) => {},
                        _ => {},
                    }
                },
                _ => {},
            }
        }
        let x = match BoltInteger::parse(version, input) {
            Ok(x) => x,
            Err(e) => return Err(e),
        };
        let ghost n = (cur.len() - bytes_content(*input).len()) as nat;
        proof {
            lemma_prepend_prepend(out@, c, seq![x.value], n, decode_ints(after(cur, n), rest_k));
            assert(out@ + seq![x.value] =~= out@.push(x.value));
            assert(bytes_content(*input) =~= s0.subrange((c + n) as int, s0.len() as int));
            c = c + n;
        }
        out.push(x.value);
        i = i + 1;
    }
    proof {
        assert(out@ + Seq::<i64>::empty() =~= out@);
    }
    Ok(out)
}

} // verus!
