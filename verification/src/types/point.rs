use vstd::prelude::*;
use bytes::{Bytes, BytesMut};
use crate::buffer::{buffer_content, buffer_new, bytes_content, freeze, get_u8, put_u8};
use crate::errors::Error;
use crate::types::float::{lemma_decode_floats, parse_float_fields};
use crate::types::{BoltFloat, BoltInteger};
use crate::version::Version;
use crate::wire::{after, decode_point, encode_point2d, encode_point3d, has_signature, parsed, wrote, Decoding, Model};

verus! {

/// A point in two dimensions, with the id of its spatial reference system.
#[derive(Debug, PartialEq, Clone)]
pub struct BoltPoint2D {
    pub sr_id: BoltInteger,
    pub x: BoltFloat,
    pub y: BoltFloat,
}

/// A point in three dimensions, with the id of its spatial reference system.
#[derive(Debug, PartialEq, Clone)]
pub struct BoltPoint3D {
    pub sr_id: BoltInteger,
    pub x: BoltFloat,
    pub y: BoltFloat,
    pub z: BoltFloat,
}

impl Model for BoltPoint2D {
    type M = (i64, Seq<u64>);

    open spec fn model(&self) -> (i64, Seq<u64>) {
        (self.sr_id.value, seq![self.x.bits, self.y.bits])
    }
}

impl Model for BoltPoint3D {
    type M = (i64, Seq<u64>);

    open spec fn model(&self) -> (i64, Seq<u64>) {
        (self.sr_id.value, seq![self.x.bits, self.y.bits, self.z.bits])
    }
}


impl BoltPoint2D {
    /// The input starts with the marker and signature of this point.
    pub fn can_parse(_version: Version, input: &[u8]) -> (r: bool)
        ensures
            r == has_signature(input@, 0xB3, 0x58),
    {
        input.len() >= 2 && input[0] == 0xB3 && input[1] == 0x58
    }

    /// Reads the point off the front of `input`; marker and signature are
    /// skipped unchecked.
    pub fn parse(version: Version, input: &mut Bytes) -> (r: Result<BoltPoint2D, Error>)
        requires
            !(decode_point(bytes_content(*old(input)), 2) is Short),
        ensures
            parsed(decode_point(bytes_content(*old(input)), 2), bytes_content(*old(input)), bytes_content(*final(input)), r),
    {
        let ghost s = bytes_content(*input);
        let _ = get_u8(input);
        let _ = get_u8(input);
        let ghost s1 = bytes_content(*input);
        assert(s1 =~= s.subrange(2, s.len() as int));
        let sr_id = match BoltInteger::parse(version, input) {
            Ok(x) => x,
            Err(e) => return Err(e),
        };
        let ghost s2 = bytes_content(*input);
        assert(s2 =~= after(s1, (s1.len() - s2.len()) as nat));
        proof {
            lemma_decode_floats(s2, 2);
        }
        let v = match parse_float_fields(version, input, 2) {
            Ok(v) => v,
            Err(e) => return Err(e),
        };
        let r = BoltPoint2D {
            sr_id,
            x: BoltFloat::from_bits(v[0]),
            y: BoltFloat::from_bits(v[1]),
        };
        assert(r.model().1 =~= v@);
        assert(bytes_content(*input) =~= s.subrange(s.len() - bytes_content(*input).len(), s.len() as int));
        Ok(r)
    }

    /// Appends marker, signature, the reference system id and the coordinates.
    pub fn write_into(&self, version: Version, bytes: &mut BytesMut) -> (r: Result<(), Error>)
        ensures
            wrote(Ok(encode_point2d(self.sr_id.value, self.x.bits, self.y.bits)), buffer_content(*old(bytes)), buffer_content(*final(bytes)), r),
    {
        let ghost b0 = buffer_content(*bytes);
        put_u8(bytes, 0xB3);
        put_u8(bytes, 0x58);
        let _ = self.sr_id.write_into(version, bytes);
        let _ = self.x.write_into(version, bytes);
        let _ = self.y.write_into(version, bytes);
        assert(buffer_content(*bytes) =~= b0 + encode_point2d(self.sr_id.value, self.x.bits, self.y.bits));
        Ok(())
    }

    /// The encoding of the point.
    pub fn into_bytes(self, version: Version) -> (r: Result<Bytes, Error>)
        ensures
            r matches Ok(b) && bytes_content(b) == encode_point2d(self.sr_id.value, self.x.bits, self.y.bits),
    {
        let mut bytes = buffer_new();
        let _ = self.write_into(version, &mut bytes);
        assert(buffer_content(bytes) =~= encode_point2d(self.sr_id.value, self.x.bits, self.y.bits));
        Ok(freeze(bytes))
    }
}

impl BoltPoint3D {
    /// The input starts with the marker and signature of this point.
    pub fn can_parse(_version: Version, input: &[u8]) -> (r: bool)
        ensures
            r == has_signature(input@, 0xB4, 0x59),
    {
        input.len() >= 2 && input[0] == 0xB4 && input[1] == 0x59
    }

    /// Reads the point off the front of `input`; marker and signature are
    /// skipped unchecked.
    pub fn parse(version: Version, input: &mut Bytes) -> (r: Result<BoltPoint3D, Error>)
        requires
            !(decode_point(bytes_content(*old(input)), 3) is Short),
        ensures
            parsed(decode_point(bytes_content(*old(input)), 3), bytes_content(*old(input)), bytes_content(*final(input)), r),
    {
        let ghost s = bytes_content(*input);
        let _ = get_u8(input);
        let _ = get_u8(input);
        let ghost s1 = bytes_content(*input);
        assert(s1 =~= s.subrange(2, s.len() as int));
        let sr_id = match BoltInteger::parse(version, input) {
            Ok(x) => x,
            Err(e) => return Err(e),
        };
        let ghost s2 = bytes_content(*input);
        assert(s2 =~= after(s1, (s1.len() - s2.len()) as nat));
        proof {
            lemma_decode_floats(s2, 3);
        }
        let v = match parse_float_fields(version, input, 3) {
            Ok(v) => v,
            Err(e) => return Err(e),
        };
        let r = BoltPoint3D {
            sr_id,
            x: BoltFloat::from_bits(v[0]),
            y: BoltFloat::from_bits(v[1]),
            z: BoltFloat::from_bits(v[2]),
        };
        assert(r.model().1 =~= v@);
        assert(bytes_content(*input) =~= s.subrange(s.len() - bytes_content(*input).len(), s.len() as int));
        Ok(r)
    }

    /// Appends marker, signature, the reference system id and the coordinates.
    pub fn write_into(&self, version: Version, bytes: &mut BytesMut) -> (r: Result<(), Error>)
        ensures
            wrote(Ok(encode_point3d(self.sr_id.value, self.x.bits, self.y.bits, self.z.bits)), buffer_content(*old(bytes)), buffer_content(*final(bytes)), r),
    {
        let ghost b0 = buffer_content(*bytes);
        put_u8(bytes, 0xB4);
        put_u8(bytes, 0x59);
        let _ = self.sr_id.write_into(version, bytes);
        let _ = self.x.write_into(version, bytes);
        let _ = self.y.write_into(version, bytes);
        let _ = self.z.write_into(version, bytes);
        assert(buffer_content(*bytes) =~= b0 + encode_point3d(self.sr_id.value, self.x.bits, self.y.bits, self.z.bits));
        Ok(())
    }

    /// The encoding of the point.
    pub fn into_bytes(self, version: Version) -> (r: Result<Bytes, Error>)
        ensures
            r matches Ok(b) && bytes_content(b) == encode_point3d(self.sr_id.value, self.x.bits, self.y.bits, self.z.bits),
    {
        let mut bytes = buffer_new();
        let _ = self.write_into(version, &mut bytes);
        assert(buffer_content(bytes) =~= encode_point3d(self.sr_id.value, self.x.bits, self.y.bits, self.z.bits));
        Ok(freeze(bytes))
    }
}

} // verus!
