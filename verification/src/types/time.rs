use vstd::prelude::*;
use bytes::{Bytes, BytesMut};
use crate::buffer::{buffer_content, buffer_new, bytes_content, freeze, get_u8, put_u8};
use crate::errors::Error;
use crate::types::BoltInteger;
use crate::types::integer::{lemma_decode_ints, parse_int_fields};
use crate::version::Version;
use crate::wire::{decode_int_struct, encode_int_struct, has_signature, parsed, wrote, Model};

verus! {

/// A time of day with the offset of its time zone.
#[derive(Debug, PartialEq, Eq, Clone)]
pub struct BoltTime {
    pub nanoseconds: BoltInteger,
    pub tz_offset_seconds: BoltInteger,
}

/// A time of day without a time zone.
#[derive(Debug, PartialEq, Eq, Clone)]
pub struct BoltLocalTime {
    pub nanoseconds: BoltInteger,
}

impl Model for BoltTime {
    type M = Seq<i64>;

    open spec fn model(&self) -> Seq<i64> {
        seq![self.nanoseconds.value, self.tz_offset_seconds.value]
    }
}

impl Model for BoltLocalTime {
    type M = Seq<i64>;

    open spec fn model(&self) -> Seq<i64> {
        seq![self.nanoseconds.value]
    }
}


/// Wire format of times.
impl BoltTime {
    /// The input starts with the marker and signature of this structure.
    pub fn can_parse(_version: Version, input: &[u8]) -> (r: bool)
        ensures
            r == has_signature(input@, 0xB2, 0x54),
    {
        input.len() >= 2 && input[0] == 0xB2 && input[1] == 0x54
    }

    /// Reads the structure off the front of `input`; marker and signature
    /// are skipped unchecked.
    pub fn parse(version: Version, input: &mut Bytes) -> (r: Result<BoltTime, Error>)
        requires
            !(decode_int_struct(bytes_content(*old(input)), 2) is Short),
        ensures
            parsed(decode_int_struct(bytes_content(*old(input)), 2), bytes_content(*old(input)), bytes_content(*final(input)), r),
    {
        let ghost s = bytes_content(*input);
        let _ = get_u8(input);
        let _ = get_u8(input);
        let ghost s1 = bytes_content(*input);
        assert(s1 =~= s.subrange(2, s.len() as int));
        proof {
            lemma_decode_ints(s1, 2);
        }
        let v = match parse_int_fields(version, input, 2) {
            Ok(v) => v,
            Err(e) => return Err(e),
        };
        let r = BoltTime {
            nanoseconds: BoltInteger::new(v[0]),
            tz_offset_seconds: BoltInteger::new(v[1]),
        };
        assert(r.model() =~= v@);
        assert(bytes_content(*input) =~= s.subrange(s.len() - bytes_content(*input).len(), s.len() as int));
        Ok(r)
    }

    /// Appends marker, signature and the fields.
    pub fn write_into(&self, version: Version, bytes: &mut BytesMut) -> (r: Result<(), Error>)
        ensures
            wrote(Ok(encode_int_struct(0xB2, 0x54, self.model())), buffer_content(*old(bytes)), buffer_content(*final(bytes)), r),
    {
        let ghost b0 = buffer_content(*bytes);
        put_u8(bytes, 0xB2);
        put_u8(bytes, 0x54);
        let _ = self.nanoseconds.write_into(version, bytes);
        let _ = self.tz_offset_seconds.write_into(version, bytes);
        proof {
            reveal_with_fuel(encode_int_struct, 3);
            let m = self.model();
            assert(m.drop_last() =~= seq![self.nanoseconds.value]);
            assert(m.drop_last().drop_last() =~= Seq::<i64>::empty());
        }
        assert(buffer_content(*bytes) =~= b0 + encode_int_struct(0xB2, 0x54, self.model()));
        Ok(())
    }

    /// The encoding of the structure.
    pub fn into_bytes(self, version: Version) -> (r: Result<Bytes, Error>)
        ensures
            r matches Ok(b) && bytes_content(b) == encode_int_struct(0xB2, 0x54, self.model()),
    {
        let mut bytes = buffer_new();
        let _ = self.write_into(version, &mut bytes);
        assert(buffer_content(bytes) =~= encode_int_struct(0xB2, 0x54, self.model()));
        Ok(freeze(bytes))
    }
}

/// Wire format of local times.
impl BoltLocalTime {
    /// The input starts with the marker and signature of this structure.
    pub fn can_parse(_version: Version, input: &[u8]) -> (r: bool)
        ensures
            r == has_signature(input@, 0xB1, 0x74),
    {
        input.len() >= 2 && input[0] == 0xB1 && input[1] == 0x74
    }

    /// Reads the structure off the front of `input`; marker and signature
    /// are skipped unchecked.
    pub fn parse(version: Version, input: &mut Bytes) -> (r: Result<BoltLocalTime, Error>)
        requires
            !(decode_int_struct(bytes_content(*old(input)), 1) is Short),
        ensures
            parsed(decode_int_struct(bytes_content(*old(input)), 1), bytes_content(*old(input)), bytes_content(*final(input)), r),
    {
        let ghost s = bytes_content(*input);
        let _ = get_u8(input);
        let _ = get_u8(input);
        let ghost s1 = bytes_content(*input);
        assert(s1 =~= s.subrange(2, s.len() as int));
        proof {
            lemma_decode_ints(s1, 1);
        }
        let v = match parse_int_fields(version, input, 1) {
            Ok(v) => v,
            Err(e) => return Err(e),
        };
        let r = BoltLocalTime {
            nanoseconds: BoltInteger::new(v[0]),
        };
        assert(r.model() =~= v@);
        assert(bytes_content(*input) =~= s.subrange(s.len() - bytes_content(*input).len(), s.len() as int));
        Ok(r)
    }

    /// Appends marker, signature and the fields.
    pub fn write_into(&self, version: Version, bytes: &mut BytesMut) -> (r: Result<(), Error>)
        ensures
            wrote(Ok(encode_int_struct(0xB1, 0x74, self.model())), buffer_content(*old(bytes)), buffer_content(*final(bytes)), r),
    {
        let ghost b0 = buffer_content(*bytes);
        put_u8(bytes, 0xB1);
        put_u8(bytes, 0x74);
        let _ = self.nanoseconds.write_into(version, bytes);
        proof {
            reveal_with_fuel(encode_int_struct, 2);
            let m = self.model();
            assert(m.drop_last() =~= Seq::<i64>::empty());
        }
        assert(buffer_content(*bytes) =~= b0 + encode_int_struct(0xB1, 0x74, self.model()));
        Ok(())
    }

    /// The encoding of the structure.
    pub fn into_bytes(self, version: Version) -> (r: Result<Bytes, Error>)
        ensures
            r matches Ok(b) && bytes_content(b) == encode_int_struct(0xB1, 0x74, self.model()),
    {
        let mut bytes = buffer_new();
        let _ = self.write_into(version, &mut bytes);
        assert(buffer_content(bytes) =~= encode_int_struct(0xB1, 0x74, self.model()));
        Ok(freeze(bytes))
    }
}

} // verus!
