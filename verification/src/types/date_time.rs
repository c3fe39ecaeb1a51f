use vstd::prelude::*;
use bytes::{Bytes, BytesMut};
use crate::buffer::{buffer_content, buffer_new, bytes_content, freeze, get_u8, put_u8};
use crate::errors::Error;
use crate::types::{BoltInteger, BoltString};
use crate::types::integer::{lemma_decode_ints, parse_int_fields};
use crate::version::Version;
use crate::wire::{after, decode_zoned, encode_zoned, decode_int_struct, encode_int_struct, has_signature, parsed, wrote, Model};

verus! {

/// A point in time with the offset of its time zone; `seconds` counts local
/// time since the epoch.
#[derive(Debug, PartialEq, Eq, Clone)]
pub struct BoltDateTime {
    pub seconds: BoltInteger,
    pub nanoseconds: BoltInteger,
    pub tz_offset_seconds: BoltInteger,
}

/// A date and time of day without a time zone.
#[derive(Debug, PartialEq, Eq, Clone)]
pub struct BoltLocalDateTime {
    pub seconds: BoltInteger,
    pub nanoseconds: BoltInteger,
}

/// A date and time of day in a named time zone.
#[derive(Debug, PartialEq, Eq, Clone)]
pub struct BoltDateTimeZoneId {
    pub seconds: BoltInteger,
    pub nanoseconds: BoltInteger,
    pub tz_id: BoltString,
}

impl Model for BoltDateTime {
    type M = Seq<i64>;

    open spec fn model(&self) -> Seq<i64> {
        seq![self.seconds.value, self.nanoseconds.value, self.tz_offset_seconds.value]
    }
}

impl Model for BoltLocalDateTime {
    type M = Seq<i64>;

    open spec fn model(&self) -> Seq<i64> {
        seq![self.seconds.value, self.nanoseconds.value]
    }
}

impl Model for BoltDateTimeZoneId {
    type M = (Seq<i64>, Seq<char>);

    open spec fn model(&self) -> (Seq<i64>, Seq<char>) {
        (seq![self.seconds.value, self.nanoseconds.value], self.tz_id.value@)
    }
}


/// Wire format of date-times with offset.
impl BoltDateTime {
    /// The input starts with the marker and signature of this structure.
    pub fn can_parse(_version: Version, input: &[u8]) -> (r: bool)
        ensures
            r == has_signature(input@, 0xB3, 0x46),
    {
        input.len() >= 2 && input[0] == 0xB3 && input[1] == 0x46
    }

    /// Reads the structure off the front of `input`; marker and signature
    /// are skipped unchecked.
    pub fn parse(version: Version, input: &mut Bytes) -> (r: Result<BoltDateTime, Error>)
        requires
            !(decode_int_struct(bytes_content(*old(input)), 3) is Short),
        ensures
            parsed(decode_int_struct(bytes_content(*old(input)), 3), bytes_content(*old(input)), bytes_content(*final(input)), r),
    {
        let ghost s = bytes_content(*input);
        let _ = get_u8(input);
        let _ = get_u8(input);
        let ghost s1 = bytes_content(*input);
        assert(s1 =~= s.subrange(2, s.len() as int));
        proof {
            lemma_decode_ints(s1, 3);
        }
        let v = match parse_int_fields(version, input, 3) {
            Ok(v) => v,
            Err(e) => return Err(e),
        };
        let r = BoltDateTime {
            seconds: BoltInteger::new(v[0]),
            nanoseconds: BoltInteger::new(v[1]),
            tz_offset_seconds: BoltInteger::new(v[2]),
        };
        assert(r.model() =~= v@);
        assert(bytes_content(*input) =~= s.subrange(s.len() - bytes_content(*input).len(), s.len() as int));
        Ok(r)
    }

    /// Appends marker, signature and the fields.
    pub fn write_into(&self, version: Version, bytes: &mut BytesMut) -> (r: Result<(), Error>)
        ensures
            wrote(Ok(encode_int_struct(0xB3, 0x46, self.model())), buffer_content(*old(bytes)), buffer_content(*final(bytes)), r),
    {
        let ghost b0 = buffer_content(*bytes);
        put_u8(bytes, 0xB3);
        put_u8(bytes, 0x46);
        let _ = self.seconds.write_into(version, bytes);
        let _ = self.nanoseconds.write_into(version, bytes);
        let _ = self.tz_offset_seconds.write_into(version, bytes);
        proof {
            reveal_with_fuel(encode_int_struct, 4);
            let m = self.model();
            assert(m.drop_last() =~= seq![self.seconds.value, self.nanoseconds.value]);
            assert(m.drop_last().drop_last() =~= seq![self.seconds.value]);
            assert(m.drop_last().drop_last().drop_last() =~= Seq::<i64>::empty());
        }
        assert(buffer_content(*bytes) =~= b0 + encode_int_struct(0xB3, 0x46, self.model()));
        Ok(())
    }

    /// The encoding of the structure.
    pub fn into_bytes(self, version: Version) -> (r: Result<Bytes, Error>)
        ensures
            r matches Ok(b) && bytes_content(b) == encode_int_struct(0xB3, 0x46, self.model()),
    {
        let mut bytes = buffer_new();
        let _ = self.write_into(version, &mut bytes);
        assert(buffer_content(bytes) =~= encode_int_struct(0xB3, 0x46, self.model()));
        Ok(freeze(bytes))
    }
}

/// Wire format of local date-times.
impl BoltLocalDateTime {
    /// The input starts with the marker and signature of this structure.
    pub fn can_parse(_version: Version, input: &[u8]) -> (r: bool)
        ensures
            r == has_signature(input@, 0xB2, 0x64),
    {
        input.len() >= 2 && input[0] == 0xB2 && input[1] == 0x64
    }

    /// Reads the structure off the front of `input`; marker and signature
    /// are skipped unchecked.
    pub fn parse(version: Version, input: &mut Bytes) -> (r: Result<BoltLocalDateTime, Error>)
        requires
            !(decode_int_struct(bytes_content(*old(input)), 2) is Short),
        ensures
            parsed(decode_int_struct(bytes_content(*old(input)), 2), bytes_content(*old(input)), bytes_content(*final(input)), r),
    {
        let ghost s = bytes_content(*input);
        let _ = get_u8(input);
        let _ = get_u8(input);
        let ghost s1 = bytes_content(*input);
        assert(s1 =~= s.subrange(2, s.len() as int));
        proof {
            lemma_decode_ints(s1, 2);
        }
        let v = match parse_int_fields(version, input, 2) {
            Ok(v) => v,
            Err(e) => return Err(e),
        };
        let r = BoltLocalDateTime {
            seconds: BoltInteger::new(v[0]),
            nanoseconds: BoltInteger::new(v[1]),
        };
        assert(r.model() =~= v@);
        assert(bytes_content(*input) =~= s.subrange(s.len() - bytes_content(*input).len(), s.len() as int));
        Ok(r)
    }

    /// Appends marker, signature and the fields.
    pub fn write_into(&self, version: Version, bytes: &mut BytesMut) -> (r: Result<(), Error>)
        ensures
            wrote(Ok(encode_int_struct(0xB2, 0x64, self.model())), buffer_content(*old(bytes)), buffer_content(*final(bytes)), r),
    {
        let ghost b0 = buffer_content(*bytes);
        put_u8(bytes, 0xB2);
        put_u8(bytes, 0x64);
        let _ = self.seconds.write_into(version, bytes);
        let _ = self.nanoseconds.write_into(version, bytes);
        proof {
            reveal_with_fuel(encode_int_struct, 3);
            let m = self.model();
            assert(m.drop_last() =~= seq![self.seconds.value]);
            assert(m.drop_last().drop_last() =~= Seq::<i64>::empty());
        }
        assert(buffer_content(*bytes) =~= b0 + encode_int_struct(0xB2, 0x64, self.model()));
        Ok(())
    }

    /// The encoding of the structure.
    pub fn into_bytes(self, version: Version) -> (r: Result<Bytes, Error>)
        ensures
            r matches Ok(b) && bytes_content(b) == encode_int_struct(0xB2, 0x64, self.model()),
    {
        let mut bytes = buffer_new();
        let _ = self.write_into(version, &mut bytes);
        assert(buffer_content(bytes) =~= encode_int_struct(0xB2, 0x64, self.model()));
        Ok(freeze(bytes))
    }
}


/// Wire format of date-times with a zone id.
impl BoltDateTimeZoneId {
    /// The input starts with the marker and signature of a zoned date-time.
    pub fn can_parse(_version: Version, input: &[u8]) -> (r: bool)
        ensures
            r == has_signature(input@, 0xB3, 0x66),
    {
        input.len() >= 2 && input[0] == 0xB3 && input[1] == 0x66
    }

    /// Reads the date-time off the front of `input`; marker and signature
    /// are skipped unchecked.
    pub fn parse(version: Version, input: &mut Bytes) -> (r: Result<BoltDateTimeZoneId, Error>)
        requires
            !(decode_zoned(bytes_content(*old(input))) is Short),
        ensures
            parsed(decode_zoned(bytes_content(*old(input))), bytes_content(*old(input)), bytes_content(*final(input)), r),
    {
        let ghost s = bytes_content(*input);
        let _ = get_u8(input);
        let _ = get_u8(input);
        let ghost s1 = bytes_content(*input);
        assert(s1 =~= s.subrange(2, s.len() as int));
        proof {
            lemma_decode_ints(s1, 2);
        }
        let v = match parse_int_fields(version, input, 2) {
            Ok(v) => v,
            Err(e) => return Err(e),
        };
        let ghost s2 = bytes_content(*input);
        assert(s2 =~= after(s1, (s1.len() - s2.len()) as nat));
        let tz_id = match BoltString::parse(version, input) {
            Ok(x) => x,
            Err(e) => return Err(e),
        };
        let r = BoltDateTimeZoneId { seconds: BoltInteger::new(v[0]), nanoseconds: BoltInteger::new(v[1]), tz_id };
        assert(r.model().0 =~= v@);
        assert(bytes_content(*input) =~= s.subrange(s.len() - bytes_content(*input).len(), s.len() as int));
        Ok(r)
    }

    /// Appends marker, signature, seconds, nanoseconds and the zone id.
    pub fn write_into(&self, version: Version, bytes: &mut BytesMut) -> (r: Result<(), Error>)
        ensures
            wrote(encode_zoned(self.seconds.value, self.nanoseconds.value, self.tz_id.value@), buffer_content(*old(bytes)), buffer_content(*final(bytes)), r),
    {
        let ghost b0 = buffer_content(*bytes);
        put_u8(bytes, 0xB3);
        put_u8(bytes, 0x66);
        let _ = self.seconds.write_into(version, bytes);
        let _ = self.nanoseconds.write_into(version, bytes);
        let ghost b1 = buffer_content(*bytes);
        proof {
            let m = seq![self.seconds.value, self.nanoseconds.value];
            reveal_with_fuel(encode_int_struct, 3);
            assert(m.drop_last().drop_last() =~= Seq::<i64>::empty());
            assert(m.drop_last() =~= seq![self.seconds.value]);
            assert(b1 =~= b0 + encode_int_struct(0xB3, 0x66, m));
        }
        match self.tz_id.write_into(version, bytes) {
            Ok(()) => {},
            Err(e) => return Err(e),
        }
        assert(buffer_content(*bytes) =~= b0 + encode_zoned(self.seconds.value, self.nanoseconds.value, self.tz_id.value@)->Ok_0);
        Ok(())
    }

    /// The encoding of the date-time.
    pub fn into_bytes(self, version: Version) -> (r: Result<Bytes, Error>)
        ensures
            match encode_zoned(self.seconds.value, self.nanoseconds.value, self.tz_id.value@) {
                Ok(b) => r matches Ok(x) && bytes_content(x) == b,
                Err(e) => r matches Err(x) && x@ == e,
            },
    {
        let mut bytes = buffer_new();
        match self.write_into(version, &mut bytes) {
            Ok(()) => {},
            Err(e) => return Err(e),
        }
        assert(buffer_content(bytes) =~= encode_zoned(self.seconds.value, self.nanoseconds.value, self.tz_id.value@)->Ok_0);
        Ok(freeze(bytes))
    }

    /// The zone id.
    pub fn tz_id(&self) -> (r: &str)
        ensures
            r@ == self.tz_id.value@,
    {
        self.tz_id.value.as_str()
    }
}
} // verus!
