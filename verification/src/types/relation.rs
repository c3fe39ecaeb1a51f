use vstd::prelude::*;
use bytes::{Bytes, BytesMut};
use crate::buffer::{buffer_content, buffer_new, bytes_content, freeze, get_u8, put_u8};
use crate::errors::Error;
use crate::version::Version;
use crate::model::Value;
use crate::types::integer::{lemma_decode_ints, parse_int_fields};
use crate::types::{map_values, BoltInteger, BoltMap, BoltString};
use crate::wire::{lemma_unfold_decode_relation, lemma_unfold_decode_unbounded_relation, after, decode_relation, decode_unbounded_relation, encode_element, has_signature, parsed, wrote, Model};

verus! {

/// A relationship of the graph, with the ids of its end points.
#[derive(Debug, PartialEq)]
pub struct BoltRelation {
    pub id: BoltInteger,
    pub start_node_id: BoltInteger,
    pub end_node_id: BoltInteger,
    pub typ: BoltString,
    pub properties: BoltMap,
}

/// A relationship of the graph, without its end points (as in a path).
#[derive(Debug, PartialEq)]
pub struct BoltUnboundedRelation {
    pub id: BoltInteger,
    pub typ: BoltString,
    pub properties: BoltMap,
}

impl Model for BoltRelation {
    type M = Value;

    open spec fn model(&self) -> Value {
        Value::Relation(
            self.id.value,
            self.start_node_id.value,
            self.end_node_id.value,
            self.typ.value@,
            map_values(self.properties),
        )
    }
}

impl Model for BoltUnboundedRelation {
    type M = Value;

    open spec fn model(&self) -> Value {
        Value::UnboundedRelation(self.id.value, self.typ.value@, map_values(self.properties))
    }
}

impl BoltRelation {
    /// The input starts with the marker and signature of a relationship.
    pub fn can_parse(_version: Version, input: &[u8]) -> (r: bool)
        ensures
            r == has_signature(input@, 0xB5, 0x52),
    {
        input.len() >= 2 && input[0] == 0xB5 && input[1] == 0x52
    }

    /// Reads a relationship off the front of `input`; marker and signature
    /// are skipped unchecked.
    pub fn parse(version: Version, input: &mut Bytes) -> (r: Result<BoltRelation, Error>)
        requires
            !(decode_relation(bytes_content(*old(input))) is Short),
        ensures
            parsed(decode_relation(bytes_content(*old(input))), bytes_content(*old(input)), bytes_content(*final(input)), r),
        decreases bytes_content(*old(input)).len(), 0nat,
    {
        let ghost s = bytes_content(*input);
        proof {
            lemma_unfold_decode_relation(s);
        }
        let _ = get_u8(input);
        let _ = get_u8(input);
        let ghost s1 = bytes_content(*input);
        assert(s1 =~= s.subrange(2, s.len() as int));
        proof {
            lemma_decode_ints(s1, 3);
        }
        let ids = match parse_int_fields(version, input, 3) {
            Ok(x) => x,
            Err(e) => return Err(e),
        };
        let ghost s2 = bytes_content(*input);
        assert(s2 =~= after(s1, (s1.len() - s2.len()) as nat));
        let typ = match BoltString::parse(version, input) {
            Ok(x) => x,
            Err(e) => return Err(e),
        };
        let ghost s3 = bytes_content(*input);
        assert(s3 =~= after(s2, (s2.len() - s3.len()) as nat));
        let properties = match BoltMap::parse(version, input) {
            Ok(x) => x,
            Err(e) => return Err(e),
        };
        assert(bytes_content(*input) =~= s.subrange(s.len() - bytes_content(*input).len(), s.len() as int));
        Ok(BoltRelation {
            id: BoltInteger::new(ids[0]),
            start_node_id: BoltInteger::new(ids[1]),
            end_node_id: BoltInteger::new(ids[2]),
            typ,
            properties,
        })
    }

    /// Appends marker, signature, the three ids, the type and the properties.
    pub fn write_into(&self, version: Version, bytes: &mut BytesMut) -> (r: Result<(), Error>)
        ensures
            wrote(encode_element(self.model()), buffer_content(*old(bytes)), buffer_content(*final(bytes)), r),
        decreases self, 0nat,
    {
        let ghost b0 = buffer_content(*bytes);
        put_u8(bytes, 0xB5);
        put_u8(bytes, 0x52);
        let _ = self.id.write_into(version, bytes);
        let _ = self.start_node_id.write_into(version, bytes);
        let _ = self.end_node_id.write_into(version, bytes);
        let ghost b1 = buffer_content(*bytes);
        match self.typ.write_into(version, bytes) {
            Ok(()) => {},
            Err(e) => return Err(e),
        }
        let ghost b2 = buffer_content(*bytes);
        match self.properties.write_into(version, bytes) {
            Ok(()) => {},
            Err(e) => return Err(e),
        }
        assert(buffer_content(*bytes) =~= b0 + encode_element(self.model())->Ok_0);
        Ok(())
    }

    /// The encoding of the relationship.
    pub fn into_bytes(self, version: Version) -> (r: Result<Bytes, Error>)
        ensures
            match encode_element(self.model()) {
                Ok(b) => r matches Ok(x) && bytes_content(x) == b,
                Err(e) => r matches Err(x) && x@ == e,
            },
    {
        let mut bytes = buffer_new();
        match self.write_into(version, &mut bytes) {
            Ok(()) => {
                assert(buffer_content(bytes) =~= encode_element(self.model())->Ok_0);
                Ok(freeze(bytes))
            },
            Err(e) => Err(e),
        }
    }
}

impl BoltUnboundedRelation {
    pub fn new(id: BoltInteger, typ: BoltString, properties: BoltMap) -> (r: BoltUnboundedRelation)
        ensures
            r == (BoltUnboundedRelation { id, typ, properties }),
    {
        BoltUnboundedRelation { id, typ, properties }
    }

    /// The input starts with the marker and signature of an unbounded relationship.
    pub fn can_parse(_version: Version, input: &[u8]) -> (r: bool)
        ensures
            r == has_signature(input@, 0xB3, 0x72),
    {
        input.len() >= 2 && input[0] == 0xB3 && input[1] == 0x72
    }

    /// Reads an unbounded relationship off the front of `input`; marker and
    /// signature are skipped unchecked.
    pub fn parse(version: Version, input: &mut Bytes) -> (r: Result<BoltUnboundedRelation, Error>)
        requires
            !(decode_unbounded_relation(bytes_content(*old(input))) is Short),
        ensures
            parsed(decode_unbounded_relation(bytes_content(*old(input))), bytes_content(*old(input)), bytes_content(*final(input)), r),
        decreases bytes_content(*old(input)).len(), 0nat,
    {
        let ghost s = bytes_content(*input);
        proof {
            lemma_unfold_decode_unbounded_relation(s);
        }
        let _ = get_u8(input);
        let _ = get_u8(input);
        let ghost s1 = bytes_content(*input);
        assert(s1 =~= s.subrange(2, s.len() as int));
        let id = match BoltInteger::parse(version, input) {
            Ok(x) => x,
            Err(e) => return Err(e),
        };
        let ghost s2 = bytes_content(*input);
        assert(s2 =~= after(s1, (s1.len() - s2.len()) as nat));
        let typ = match BoltString::parse(version, input) {
            Ok(x) => x,
            Err(e) => return Err(e),
        };
        let ghost s3 = bytes_content(*input);
        assert(s3 =~= after(s2, (s2.len() - s3.len()) as nat));
        let properties = match BoltMap::parse(version, input) {
            Ok(x) => x,
            Err(e) => return Err(e),
        };
        assert(bytes_content(*input) =~= s.subrange(s.len() - bytes_content(*input).len(), s.len() as int));
        Ok(BoltUnboundedRelation { id, typ, properties })
    }

    /// Appends marker, signature, id, type and properties.
    pub fn write_into(&self, version: Version, bytes: &mut BytesMut) -> (r: Result<(), Error>)
        ensures
            wrote(encode_element(self.model()), buffer_content(*old(bytes)), buffer_content(*final(bytes)), r),
        decreases self, 0nat,
    {
        let ghost b0 = buffer_content(*bytes);
        put_u8(bytes, 0xB3);
        put_u8(bytes, 0x72);
        let _ = self.id.write_into(version, bytes);
        let ghost b1 = buffer_content(*bytes);
        match self.typ.write_into(version, bytes) {
            Ok(()) => {},
            Err(e) => return Err(e),
        }
        let ghost b2 = buffer_content(*bytes);
        match self.properties.write_into(version, bytes) {
            Ok(()) => {},
            Err(e) => return Err(e),
        }
        assert(buffer_content(*bytes) =~= b0 + encode_element(self.model())->Ok_0);
        Ok(())
    }

    /// The encoding of the relationship.
    pub fn into_bytes(self, version: Version) -> (r: Result<Bytes, Error>)
        ensures
            match encode_element(self.model()) {
                Ok(b) => r matches Ok(x) && bytes_content(x) == b,
                Err(e) => r matches Err(x) && x@ == e,
            },
    {
        let mut bytes = buffer_new();
        match self.write_into(version, &mut bytes) {
            Ok(()) => {
                assert(buffer_content(bytes) =~= encode_element(self.model())->Ok_0);
                Ok(freeze(bytes))
            },
            Err(e) => Err(e),
        }
    }
}

} // verus!
