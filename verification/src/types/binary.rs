use vstd::prelude::*;
use bytes::{Bytes, BytesMut};
use crate::buffer::{buffer_content, buffer_new, bytes_as_slice, bytes_content, bytes_len, freeze, get_u16, get_u32, get_u8, put_slice, put_u16, put_u32, put_u8, split_to};
use crate::errors::Error;
use crate::text::marker_message;
use crate::version::Version;
use crate::wire::{decode_bytes, encode_bytes, is_bytes_marker, parsed, wrote, Model};

verus! {

pub const SMALL: u8 = 0xCC;
pub const MEDIUM: u8 = 0xCD;
pub const LARGE: u8 = 0xCE;

/// A byte array.
#[derive(Debug, PartialEq, Clone)]
pub struct BoltBytes {
    pub value: Bytes,
}

impl Model for BoltBytes {
    type M = Seq<u8>;

    open spec fn model(&self) -> Seq<u8> {
        bytes_content(self.value)
    }
}

impl BoltBytes {
    pub fn new(value: Bytes) -> (r: BoltBytes)
        ensures
            r.value == value,
    {
        BoltBytes { value }
    }

    /// The number of bytes.
    pub fn len(&self) -> (n: usize)
        ensures
            n == bytes_content(self.value).len(),
    {
        bytes_len(&self.value)
    }

    /// The first byte is the marker of a byte array.
    pub fn can_parse(_version: Version, input: &[u8]) -> (r: bool)
        requires
            input@.len() >= 1,
        ensures
            r == is_bytes_marker(input@[0]),
    {
        let marker = input[0];
        marker == SMALL || marker == MEDIUM || marker == LARGE
    }

    /// Appends the size and the bytes.
    pub fn write_into(&self, _version: Version, bytes: &mut BytesMut) -> (r: Result<(), Error>)
        ensures
            wrote(encode_bytes(bytes_content(self.value)), buffer_content(*old(bytes)), buffer_content(*final(bytes)), r),
    {
        let ghost b0 = buffer_content(*bytes);
        let raw = bytes_as_slice(&self.value);
        let n = raw.len();
        if n <= 255 {
            put_u8(bytes, SMALL);
            put_u8(bytes, n as u8);
        } else if n <= 65_535 {
            put_u8(bytes, MEDIUM);
            put_u16(bytes, n as u16);
        } else if n as u64 <= 2_147_483_648 {
            put_u8(bytes, LARGE);
            put_u32(bytes, n as u32);
        } else {
            return Err(Error::BytesTooBig);
        }
        put_slice(bytes, raw);
        assert(buffer_content(*bytes) =~= b0 + encode_bytes(bytes_content(self.value))->Ok_0);
        Ok(())
    }

    /// The encoding of the byte array.
    pub fn into_bytes(self, version: Version) -> (r: Result<Bytes, Error>)
        ensures
            match encode_bytes(bytes_content(self.value)) {
                Ok(b) => r matches Ok(x) && bytes_content(x) == b,
                Err(e) => r matches Err(x) && x@ == e,
            },
    {
        let mut bytes = buffer_new();
        match self.write_into(version, &mut bytes) {
            Ok(()) => {
                assert(buffer_content(bytes) =~= encode_bytes(bytes_content(self.value))->Ok_0);
                Ok(freeze(bytes))
            },
            Err(e) => Err(e),
        }
    }

    /// Reads a byte array off the front of `input`.
    pub fn parse(_version: Version, input: &mut Bytes) -> (r: Result<BoltBytes, Error>)
        requires
            !(decode_bytes(bytes_content(*old(input))) is Short),
        ensures
            parsed(decode_bytes(bytes_content(*old(input))), bytes_content(*old(input)), bytes_content(*final(input)), r),
    {
        let ghost s = bytes_content(*input);
        let marker = get_u8(input);
        assert(s.subrange(1, s.len() as int) =~= bytes_content(*input));
        let size: usize = if marker == SMALL {
            get_u8(input) as usize
        } else if marker == MEDIUM {
            get_u16(input) as usize
        } else if marker == LARGE {
            get_u32(input) as usize
        } else {
            return Err(Error::InvalidTypeMarker(marker_message("bytes", marker)));
        };
        let ghost h: int = s.len() - bytes_content(*input).len();
        assert(bytes_content(*input) =~= s.subrange(h, s.len() as int));
        let value = split_to(input, size);
        assert(bytes_content(value) =~= s.subrange(h, h + size));
        assert(bytes_content(*input) =~= s.subrange(h + size, s.len() as int));
        Ok(BoltBytes::new(value))
    }
}

} // verus!
