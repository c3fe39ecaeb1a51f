use vstd::prelude::*;
use bytes::{Bytes, BytesMut};
use crate::buffer::{buffer_content, buffer_new, bytes_content, freeze, get_u8, put_u8};
use crate::errors::Error;
use crate::version::Version;
use crate::wire::{decode_boolean, encode_boolean, parsed, wrote, Model};

verus! {

pub const FALSE: u8 = 0xC2;
pub const TRUE: u8 = 0xC3;

/// A boolean.
#[derive(Debug, PartialEq, Eq, Clone)]
pub struct BoltBoolean {
    pub value: bool,
}

impl Model for BoltBoolean {
    type M = bool;

    open spec fn model(&self) -> bool {
        self.value
    }
}

impl BoltBoolean {
    pub fn new(value: bool) -> (b: BoltBoolean)
        ensures
            b.value == value,
    {
        BoltBoolean { value }
    }

    /// The first byte is the marker of a boolean.
    pub fn can_parse(_version: Version, input: &[u8]) -> (r: bool)
        requires
            input@.len() >= 1,
        ensures
            r == (input@[0] == TRUE || input@[0] == FALSE),
    {
        let input = input[0];
        input == TRUE || input == FALSE
    }

    /// Reads a boolean off the front of `input`.
    pub fn parse(_version: Version, input: &mut Bytes) -> (r: Result<BoltBoolean, Error>)
        requires
            !(decode_boolean(bytes_content(*old(input))) is Short),
        ensures
            parsed(decode_boolean(bytes_content(*old(input))), bytes_content(*old(input)), bytes_content(*final(input)), r),
    {
        let value = get_u8(input);
        if value == TRUE {
            Ok(BoltBoolean::new(true))
        } else if value == FALSE {
            Ok(BoltBoolean::new(false))
        } else {
            Err(Error::InvalidTypeMarker("invalid boolean marker".to_owned()))
        }
    }

    /// Appends the marker of the boolean.
    pub fn write_into(&self, _version: Version, bytes: &mut BytesMut) -> (r: Result<(), Error>)
        ensures
            wrote(Ok(encode_boolean(self.value)), buffer_content(*old(bytes)), buffer_content(*final(bytes)), r),
    {
        let ghost b0 = buffer_content(*bytes);
        let value = if self.value { TRUE } else { FALSE };
        put_u8(bytes, value);
        assert(buffer_content(*bytes) =~= b0 + encode_boolean(self.value));
        Ok(())
    }

    /// The encoding of the boolean.
    pub fn into_bytes(self, version: Version) -> (r: Result<Bytes, Error>)
        ensures
            r matches Ok(b) && Ok::<Seq<u8>, crate::model::ErrorModel>(bytes_content(b)) == Ok::<Seq<u8>, crate::model::ErrorModel>(encode_boolean(self.value)),
    {
        let mut bytes = buffer_new();
        let _ = self.write_into(version, &mut bytes);
        assert(buffer_content(bytes) =~= encode_boolean(self.value));
        Ok(freeze(bytes))
    }
}

} // verus!
