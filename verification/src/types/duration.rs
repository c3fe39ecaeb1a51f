use vstd::prelude::*;
use bytes::{Bytes, BytesMut};
use crate::buffer::{buffer_content, buffer_new, bytes_content, freeze, get_u8, put_u8};
use crate::errors::Error;
use crate::types::BoltInteger;
use crate::types::integer::{lemma_decode_ints, parse_int_fields};
use crate::version::Version;
use crate::wire::{decode_int_struct, encode_int_struct, has_signature, parsed, wrote, Model};

verus! {

pub const MARKER: u8 = 0xB4;
pub const SIGNATURE: u8 = 0x45;

/// A duration in months, days, seconds and nanoseconds.
#[derive(Debug, PartialEq, Eq, Clone)]
pub struct BoltDuration {
    pub months: BoltInteger,
    pub days: BoltInteger,
    pub seconds: BoltInteger,
    pub nanoseconds: BoltInteger,
}

impl Model for BoltDuration {
    type M = Seq<i64>;

    open spec fn model(&self) -> Seq<i64> {
        seq![self.months.value, self.days.value, self.seconds.value, self.nanoseconds.value]
    }
}

impl BoltDuration {
    pub fn new(months: BoltInteger, days: BoltInteger, seconds: BoltInteger, nanoseconds: BoltInteger) -> (r: Self)
        ensures
            r.months == months,
            r.days == days,
            r.seconds == seconds,
            r.nanoseconds == nanoseconds,
    {
        BoltDuration { months, days, seconds, nanoseconds }
    }
}

/// `v` clamped to the range of `i64`.
pub open spec fn saturate(v: int) -> i64 {
    if v < i64::MIN {
        i64::MIN
    } else if v > i64::MAX {
        i64::MAX
    } else {
        v as i64
    }
}

/// `i64::saturating_add`: the sum, clamped to the range of `i64`.
pub assume_specification[ <i64>::saturating_add ](x: i64, y: i64) -> (r: i64)
    ensures
        r == saturate(x + y),
;

/// `i64::saturating_mul`: the product, clamped to the range of `i64`.
pub assume_specification[ <i64>::saturating_mul ](x: i64, y: i64) -> (r: i64)
    ensures
        r == saturate(x * y),
;

/// The seconds of a duration, counting a day as 86 400 seconds and a month
/// as 2 629 800 seconds, each step clamped to the range of `i64`.
pub open spec fn total_seconds(months: i64, days: i64, seconds: i64) -> i64 {
    saturate(saturate(seconds + saturate(days * 86_400)) + saturate(months * 2_629_800))
}

impl BoltDuration {
    /// The seconds of the duration, months and days included.
    pub fn seconds(&self) -> (r: i64)
        ensures
            r == total_seconds(self.months.value, self.days.value, self.seconds.value),
    {
        self.seconds
            .value
            .saturating_add(self.days.value.saturating_mul(24 * 3600))
            .saturating_add(self.months.value.saturating_mul(2_629_800))
    }

    /// The nanoseconds of the duration.
    pub fn nanoseconds(&self) -> (r: i64)
        ensures
            r == self.nanoseconds.value,
    {
        self.nanoseconds.value
    }
}

/// Wire format of durations.
impl BoltDuration {
    /// The input starts with the marker and signature of this structure.
    pub fn can_parse(_version: Version, input: &[u8]) -> (r: bool)
        ensures
            r == has_signature(input@, MARKER, SIGNATURE),
    {
        input.len() >= 2 && input[0] == MARKER && input[1] == SIGNATURE
    }

    /// Reads the structure off the front of `input`; marker and signature
    /// are skipped unchecked.
    pub fn parse(version: Version, input: &mut Bytes) -> (r: Result<BoltDuration, Error>)
        requires
            !(decode_int_struct(bytes_content(*old(input)), 4) is Short),
        ensures
            parsed(decode_int_struct(bytes_content(*old(input)), 4), bytes_content(*old(input)), bytes_content(*final(input)), r),
    {
        let ghost s = bytes_content(*input);
        let _ = get_u8(input);
        let _ = get_u8(input);
        let ghost s1 = bytes_content(*input);
        assert(s1 =~= s.subrange(2, s.len() as int));
        proof {
            lemma_decode_ints(s1, 4);
        }
        let v = match parse_int_fields(version, input, 4) {
            Ok(v) => v,
            Err(e) => return Err(e),
        };
        let r = BoltDuration {
            months: BoltInteger::new(v[0]),
            days: BoltInteger::new(v[1]),
            seconds: BoltInteger::new(v[2]),
            nanoseconds: BoltInteger::new(v[3]),
        };
        assert(r.model() =~= v@);
        assert(bytes_content(*input) =~= s.subrange(s.len() - bytes_content(*input).len(), s.len() as int));
        Ok(r)
    }

    /// Appends marker, signature and the fields.
    pub fn write_into(&self, version: Version, bytes: &mut BytesMut) -> (r: Result<(), Error>)
        ensures
            wrote(Ok(encode_int_struct(MARKER, SIGNATURE, self.model())), buffer_content(*old(bytes)), buffer_content(*final(bytes)), r),
    {
        let ghost b0 = buffer_content(*bytes);
        put_u8(bytes, MARKER);
        put_u8(bytes, SIGNATURE);
        let _ = self.months.write_into(version, bytes);
        let _ = self.days.write_into(version, bytes);
        let _ = self.seconds.write_into(version, bytes);
        let _ = self.nanoseconds.write_into(version, bytes);
        proof {
            reveal_with_fuel(encode_int_struct, 5);
            let m = self.model();
            assert(m.drop_last() =~= seq![self.months.value, self.days.value, self.seconds.value]);
            assert(m.drop_last().drop_last() =~= seq![self.months.value, self.days.value]);
            assert(m.drop_last().drop_last().drop_last() =~= seq![self.months.value]);
            assert(m.drop_last().drop_last().drop_last().drop_last() =~= Seq::<i64>::empty());
        }
        assert(buffer_content(*bytes) =~= b0 + encode_int_struct(MARKER, SIGNATURE, self.model()));
        Ok(())
    }

    /// The encoding of the structure.
    pub fn into_bytes(self, version: Version) -> (r: Result<Bytes, Error>)
        ensures
            r matches Ok(b) && bytes_content(b) == encode_int_struct(MARKER, SIGNATURE, self.model()),
    {
        let mut bytes = buffer_new();
        let _ = self.write_into(version, &mut bytes);
        assert(buffer_content(bytes) =~= encode_int_struct(MARKER, SIGNATURE, self.model()));
        Ok(freeze(bytes))
    }
}

} // verus!
