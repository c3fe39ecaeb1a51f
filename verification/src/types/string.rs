use vstd::prelude::*;
use vstd::utf8::encode_utf8;
use bytes::{Bytes, BytesMut};
use crate::buffer::{buffer_content, buffer_new, bytes_content, bytes_to_vec, freeze, get_u16, get_u32, get_u8, put_slice, put_u16, put_u32, put_u8, split_to};
use crate::errors::Error;
use crate::model::ErrorModel;
use crate::text::{marker_message, string_from_utf8};
use crate::version::Version;
use crate::wire::{decode_string, encode_string, is_string_marker, parsed, wrote, Model};

verus! {

pub const TINY: u8 = 0x80;
pub const SMALL: u8 = 0xD0;
pub const MEDIUM: u8 = 0xD1;
pub const LARGE: u8 = 0xD2;

/// A UTF-8 string.
#[derive(Debug, PartialEq, Eq, Hash, Clone)]
pub struct BoltString {
    pub value: String,
}

impl Model for BoltString {
    type M = Seq<char>;

    open spec fn model(&self) -> Seq<char> {
        self.value@
    }
}

impl BoltString {
    pub fn new(value: &str) -> (r: BoltString)
        ensures
            r.value@ == value@,
    {
        BoltString { value: value.to_owned() }
    }

    /// The first byte is the marker of a string.
    pub fn can_parse(_version: Version, input: &[u8]) -> (r: bool)
        requires
            input@.len() >= 1,
        ensures
            r == is_string_marker(input@[0]),
    {
        let marker = input[0];
        assert(TINY | 0x0F == 0x8Fu8) by (bit_vector);
        (TINY <= marker && marker <= (TINY | 0x0F)) || marker == SMALL || marker == MEDIUM
            || marker == LARGE
    }

    /// Appends the size and the UTF-8 bytes of the string.
    pub fn write_into(&self, _version: Version, bytes: &mut BytesMut) -> (r: Result<(), Error>)
        ensures
            wrote(encode_string(self.value@), buffer_content(*old(bytes)), buffer_content(*final(bytes)), r),
    {
        let ghost b0 = buffer_content(*bytes);
        let raw = self.value.as_str().as_bytes();
        let n = raw.len();
        if n <= 15 {
            put_u8(bytes, TINY | n as u8);
        } else if n <= 255 {
            put_u8(bytes, SMALL);
            put_u8(bytes, n as u8);
        } else if n <= 65_535 {
            put_u8(bytes, MEDIUM);
            put_u16(bytes, n as u16);
        } else if n as u64 <= 4_294_967_295 {
            put_u8(bytes, LARGE);
            put_u32(bytes, n as u32);
        } else {
            return Err(Error::StringTooLong);
        }
        put_slice(bytes, raw);
        assert(buffer_content(*bytes) =~= b0 + encode_string(self.value@)->Ok_0);
        Ok(())
    }

    /// The encoding of the string.
    pub fn into_bytes(self, version: Version) -> (r: Result<Bytes, Error>)
        ensures
            match encode_string(self.value@) {
                Ok(b) => r matches Ok(x) && bytes_content(x) == b,
                Err(e) => r matches Err(x) && x@ == e,
            },
    {
        let mut bytes = buffer_new();
        match self.write_into(version, &mut bytes) {
            Ok(()) => {
                assert(buffer_content(bytes) =~= encode_string(self.value@)->Ok_0);
                Ok(freeze(bytes))
            },
            Err(e) => Err(e),
        }
    }

    /// Reads a string off the front of `input`.
    pub fn parse(_version: Version, input: &mut Bytes) -> (r: Result<BoltString, Error>)
        requires
            !(decode_string(bytes_content(*old(input))) is Short),
        ensures
            parsed(decode_string(bytes_content(*old(input))), bytes_content(*old(input)), bytes_content(*final(input)), r),
    {
        let ghost s = bytes_content(*input);
        let marker = get_u8(input);
        assert(s.subrange(1, s.len() as int) =~= bytes_content(*input));
        let length: usize = if TINY <= marker && marker <= 0x8F {
            (marker & 0x0F) as usize
        } else if marker == SMALL {
            get_u8(input) as usize
        } else if marker == MEDIUM {
            get_u16(input) as usize
        } else if marker == LARGE {
            get_u32(input) as usize
        } else {
            return Err(Error::InvalidTypeMarker(marker_message("string", marker)));
        };
        let ghost h: int = s.len() - bytes_content(*input).len();
        assert(bytes_content(*input) =~= s.subrange(h, s.len() as int));
        let raw = split_to(input, length);
        assert(bytes_content(raw) =~= s.subrange(h, h + length));
        assert(bytes_content(*input) =~= s.subrange(h + length, s.len() as int));
        let byte_array = bytes_to_vec(&raw);
        match string_from_utf8(byte_array) {
            Ok(value) => Ok(BoltString { value }),
            Err(message) => Err(Error::DeserializationError(message)),
        }
    }
}

} // verus!
