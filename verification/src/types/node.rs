use vstd::prelude::*;
use bytes::{Bytes, BytesMut};
use crate::buffer::{buffer_content, buffer_new, bytes_content, freeze, get_u8, put_u8};
use crate::errors::Error;
use crate::version::Version;
use crate::model::Value;
use crate::types::{list_values, map_values, BoltInteger, BoltList, BoltMap};
use crate::wire::{lemma_unfold_decode_node, after, decode_node, encode_element, has_signature, parsed, wrote, Model};

verus! {

pub const MARKER: u8 = 0xB3;
pub const SIGNATURE: u8 = 0x4E;

/// A node of the graph: its id, its labels and its properties.
#[derive(Debug, PartialEq)]
pub struct BoltNode {
    pub id: BoltInteger,
    pub labels: BoltList,
    pub properties: BoltMap,
}

impl Model for BoltNode {
    type M = Value;

    open spec fn model(&self) -> Value {
        Value::Node(self.id.value, list_values(self.labels), map_values(self.properties))
    }
}

impl BoltNode {
    pub fn new(id: BoltInteger, labels: BoltList, properties: BoltMap) -> (r: BoltNode)
        ensures
            r == (BoltNode { id, labels, properties }),
    {
        BoltNode { id, labels, properties }
    }

    /// The input starts with the marker and signature of a node.
    pub fn can_parse(_version: Version, input: &[u8]) -> (r: bool)
        ensures
            r == has_signature(input@, MARKER, SIGNATURE),
    {
        input.len() >= 2 && input[0] == MARKER && input[1] == SIGNATURE
    }

    /// Reads a node off the front of `input`; marker and signature are
    /// skipped unchecked.
    #[verifier::rlimit(50)]
    pub fn parse(version: Version, input: &mut Bytes) -> (r: Result<BoltNode, Error>)
        requires
            !(decode_node(bytes_content(*old(input))) is Short),
        ensures
            parsed(decode_node(bytes_content(*old(input))), bytes_content(*old(input)), bytes_content(*final(input)), r),
        decreases bytes_content(*old(input)).len(), 0nat,
    {
        let ghost s = bytes_content(*input);
        proof {
            lemma_unfold_decode_node(s);
        }
        let _ = get_u8(input);
        let _ = get_u8(input);
        let ghost s1 = bytes_content(*input);
        assert(s1 =~= s.subrange(2, s.len() as int));
        let id = match BoltInteger::parse(version, input) {
            Ok(x) => x,
            Err(e) => return Err(e),
        };
        let ghost s2 = bytes_content(*input);
        assert(s2 =~= after(s1, (s1.len() - s2.len()) as nat));
        let labels = match BoltList::parse(version, input) {
            Ok(x) => x,
            Err(e) => return Err(e),
        };
        let ghost s3 = bytes_content(*input);
        assert(s3 =~= after(s2, (s2.len() - s3.len()) as nat));
        let properties = match BoltMap::parse(version, input) {
            Ok(x) => x,
            Err(e) => return Err(e),
        };
        assert(bytes_content(*input) =~= s.subrange(s.len() - bytes_content(*input).len(), s.len() as int));
        Ok(BoltNode { id, labels, properties })
    }

    /// Appends marker, signature, id, labels and properties.
    pub fn write_into(&self, version: Version, bytes: &mut BytesMut) -> (r: Result<(), Error>)
        ensures
            wrote(encode_element(self.model()), buffer_content(*old(bytes)), buffer_content(*final(bytes)), r),
        decreases self, 0nat,
    {
        let ghost b0 = buffer_content(*bytes);
        put_u8(bytes, MARKER);
        put_u8(bytes, SIGNATURE);
        let _ = self.id.write_into(version, bytes);
        let ghost b1 = buffer_content(*bytes);
        match self.labels.write_into(version, bytes) {
            Ok(()) => {},
            Err(e) => return Err(e),
        }
        let ghost b2 = buffer_content(*bytes);
        match self.properties.write_into(version, bytes) {
            Ok(()) => {},
            Err(e) => return Err(e),
        }
        assert(buffer_content(*bytes) =~= b0 + encode_element(self.model())->Ok_0);
        Ok(())
    }

    /// The encoding of the node.
    pub fn into_bytes(self, version: Version) -> (r: Result<Bytes, Error>)
        ensures
            match encode_element(self.model()) {
                Ok(b) => r matches Ok(x) && bytes_content(x) == b,
                Err(e) => r matches Err(x) && x@ == e,
            },
    {
        let mut bytes = buffer_new();
        match self.write_into(version, &mut bytes) {
            Ok(()) => {
                assert(buffer_content(bytes) =~= encode_element(self.model())->Ok_0);
                Ok(freeze(bytes))
            },
            Err(e) => Err(e),
        }
    }
}

} // verus!
