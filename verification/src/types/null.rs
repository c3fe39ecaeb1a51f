use vstd::prelude::*;
use bytes::{Bytes, BytesMut};
use crate::buffer::{buffer_content, buffer_new, bytes_content, freeze, get_u8, put_u8};
use crate::errors::Error;
use crate::version::Version;
use crate::wire::{decode_null, encode_null, has_signature, parsed, wrote, Model};

verus! {

pub const MARKER: u8 = 0xC0;

/// The null value.
#[derive(Debug, PartialEq, Eq, Clone)]
pub struct BoltNull;

impl Model for BoltNull {
    type M = ();

    open spec fn model(&self) -> () {
        ()
    }
}

impl Default for BoltNull {
    fn default() -> (r: Self)
        ensures
            r == BoltNull,
    {
        BoltNull
    }
}

impl BoltNull {
    /// The first byte is the null marker.
    pub fn can_parse(_version: Version, input: &[u8]) -> (r: bool)
        ensures
            r == (input@.len() >= 1 && input@[0] == MARKER),
    {
        input.len() >= 1 && input[0] == MARKER
    }

    /// Reads null off the front of `input`: one byte, unchecked.
    pub fn parse(_version: Version, input: &mut Bytes) -> (r: Result<BoltNull, Error>)
        requires
            !(decode_null(bytes_content(*old(input))) is Short),
        ensures
            parsed(decode_null(bytes_content(*old(input))), bytes_content(*old(input)), bytes_content(*final(input)), r),
    {
        let _ = get_u8(input);
        Ok(BoltNull)
    }

    /// Appends the null marker.
    pub fn write_into(&self, _version: Version, bytes: &mut BytesMut) -> (r: Result<(), Error>)
        ensures
            wrote(Ok(encode_null()), buffer_content(*old(bytes)), buffer_content(*final(bytes)), r),
    {
        let ghost b0 = buffer_content(*bytes);
        put_u8(bytes, MARKER);
        assert(buffer_content(*bytes) =~= b0 + encode_null());
        Ok(())
    }

    /// The encoding of null.
    pub fn into_bytes(self, version: Version) -> (r: Result<Bytes, Error>)
        ensures
            r matches Ok(b) && Ok::<Seq<u8>, crate::model::ErrorModel>(bytes_content(b)) == Ok::<Seq<u8>, crate::model::ErrorModel>(encode_null()),
    {
        let mut bytes = buffer_new();
        let _ = self.write_into(version, &mut bytes);
        assert(buffer_content(bytes) =~= encode_null());
        Ok(freeze(bytes))
    }
}

} // verus!
