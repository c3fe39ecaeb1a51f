use vstd::prelude::*;
use bytes::{Bytes, BytesMut};
use crate::buffer::{buffer_content, buffer_new, bytes_content, freeze, get_u64, get_u8, put_u64, put_u8};
use crate::errors::Error;
use crate::version::Version;
use crate::facts::{lemma_prepend_empty, lemma_prepend_prepend, prepend};
use crate::wire::{after, decode_floats, Decoding, decode_float, encode_float, parsed, wrote, Model};

verus! {

pub const MARKER: u8 = 0xC1;

/// A 64 bit IEEE 754 float, held as its bit pattern.
#[derive(Debug, PartialEq, Eq, Clone)]
pub struct BoltFloat {
    pub bits: u64,
}

impl Model for BoltFloat {
    type M = u64;

    open spec fn model(&self) -> u64 {
        self.bits
    }
}

impl BoltFloat {
    /// The float with the given bit pattern.
    pub fn from_bits(bits: u64) -> (r: BoltFloat)
        ensures
            r.bits == bits,
    {
        BoltFloat { bits }
    }

    /// The first byte is the float marker.
    pub fn can_parse(_version: Version, input: &[u8]) -> (r: bool)
        requires
            input@.len() >= 1,
        ensures
            r == (input@[0] == MARKER),
    {
        input[0] == MARKER
    }

    /// Reads a float off the front of `input`; the marker is not checked.
    pub fn parse(_version: Version, input: &mut Bytes) -> (r: Result<BoltFloat, Error>)
        requires
            !(decode_float(bytes_content(*old(input))) is Short),
        ensures
            parsed(decode_float(bytes_content(*old(input))), bytes_content(*old(input)), bytes_content(*final(input)), r),
    {
        let ghost s = bytes_content(*input);
        let _marker = get_u8(input);
        assert(s.subrange(1, s.len() as int) =~= bytes_content(*input));
        let bits = get_u64(input);
        assert(bytes_content(*input) =~= s.subrange(9, s.len() as int));
        Ok(BoltFloat::from_bits(bits))
    }

    /// Appends the marker and the eight bytes of the float.
    pub fn write_into(&self, _version: Version, bytes: &mut BytesMut) -> (r: Result<(), Error>)
        ensures
            wrote(Ok(encode_float(self.bits)), buffer_content(*old(bytes)), buffer_content(*final(bytes)), r),
    {
        let ghost b0 = buffer_content(*bytes);
        put_u8(bytes, MARKER);
        put_u64(bytes, self.bits);
        assert(buffer_content(*bytes) =~= b0 + encode_float(self.bits));
        Ok(())
    }

    /// The encoding of the float.
    pub fn into_bytes(self, version: Version) -> (r: Result<Bytes, Error>)
        ensures
            r matches Ok(b) && bytes_content(b) == encode_float(self.bits),
    {
        let mut bytes = buffer_new();
        let _ = self.write_into(version, &mut bytes);
        assert(buffer_content(bytes) =~= encode_float(self.bits));
        Ok(freeze(bytes))
    }
}

/// A decoding of `k` floats holds `k` of them and takes no more bytes than there are.
pub proof fn lemma_decode_floats(s: Seq<u8>, k: nat)
    ensures
        decode_floats(s, k) matches Decoding::Done(v, n) ==> v.len() == k && n <= s.len(),
    decreases k,
{
    if k > 0 {
        match decode_float(s) {
            Decoding::Done(i, n) => {
                lemma_decode_floats(after(s, n), (k - 1) as nat);
            },
            _ => {},
        }
    }
}

/// Reads `k` floats one after the other (the fields of a structure).
pub fn parse_float_fields(version: Version, input: &mut Bytes, k: usize) -> (r: Result<Vec<u64>, Error>)
    requires
        !(decode_floats(bytes_content(*old(input)), k as nat) is Short),
    ensures
        match decode_floats(bytes_content(*old(input)), k as nat) {
            Decoding::Done(v, n) => r matches Ok(x) && x@ == v && n <= bytes_content(*old(input)).len()
                && bytes_content(*final(input)) == bytes_content(*old(input)).subrange(n as int, bytes_content(*old(input)).len() as int),
            Decoding::Failed(e) => r matches Err(x) && x@ == e,
            Decoding::Short => false,
        },
{
    let ghost s0 = bytes_content(*input);
    proof {
        lemma_decode_floats(s0, k as nat);
    }
    let mut out: Vec<u64> = Vec::new();
    let mut i: usize = 0;
    let ghost mut c: nat = 0;
    proof {
        lemma_prepend_empty(decode_floats(s0, k as nat));
        assert(s0.subrange(0, s0.len() as int) =~= s0);
    }
    while i < k
        invariant
            i <= k,
            c <= s0.len(),
            bytes_content(*input) == s0.subrange(c as int, s0.len() as int),
            out@.len() == i,
            decode_floats(s0, k as nat) == prepend(out@, c, decode_floats(bytes_content(*input), (k - i) as nat)),
            !(decode_floats(s0, k as nat) is Short),
            s0 == bytes_content(*old(input)),
        decreases k - i,
    {
        let ghost cur = bytes_content(*input);
        let ghost rest_k = (k - i - 1) as nat;
        assert(decode_floats(cur, (k - i) as nat) == match decode_float(cur) {
            Decoding::Done(v, n) => prepend(seq![v], n, decode_floats(after(cur, n), rest_k)),
            Decoding::Failed(e) => Decoding::Failed(e),
            Decoding::Short => Decoding::Short,
        }) by {
            match decode_float(cur) {
                Decoding::Done(v, n) => {
                    match decode_floats(after(cur, n), rest_k) {
                        Decoding::Done(rest, m) => {},
                        _ => {},
                    }
                },
                _ => {},
            }
        }
        let x = match BoltFloat::parse(version, input) {
            Ok(x) => x,
            Err(e) => return Err(e),
        };
        let ghost n = (cur.len() - bytes_content(*input).len()) as nat;
        proof {
            lemma_prepend_prepend(out@, c, seq![x.bits], n, decode_floats(after(cur, n), rest_k));
            assert(out@ + seq![x.bits] =~= out@.push(x.bits));
            assert(bytes_content(*input) =~= s0.subrange((c + n) as int, s0.len() as int));
            c = c + n;
        }
        out.push(x.bits);
        i = i + 1;
    }
    proof {
        assert(out@ + Seq::<u64>::empty() =~= out@);
    }
    Ok(out)
}

} // verus!
