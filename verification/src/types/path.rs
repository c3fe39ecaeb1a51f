use vstd::prelude::*;
use bytes::{Bytes, BytesMut};
use crate::buffer::{buffer_content, buffer_new, bytes_content, freeze, get_u8, put_u8};
use crate::errors::Error;
use crate::version::Version;
use crate::model::Value;
use crate::types::{list_values, type_model, BoltInteger, BoltList, BoltNode, BoltType, BoltUnboundedRelation};
use crate::wire::{lemma_unfold_decode_path, after, decode_path, encode_element, has_signature, parsed, wrote, Model};

verus! {

pub const MARKER: u8 = 0xB3;
pub const SIGNATURE: u8 = 0x50;

/// A path of the graph: its nodes, its relationships and the indices that
/// say how they follow each other.
#[derive(Debug, PartialEq)]
pub struct BoltPath {
    pub nodes: BoltList,
    pub rels: BoltList,
    pub ids: BoltList,
}

impl Model for BoltPath {
    type M = Value;

    open spec fn model(&self) -> Value {
        Value::Path(list_values(self.nodes), list_values(self.rels), list_values(self.ids))
    }
}

/// The values of `items` that `keep` holds of, in order.
pub open spec fn kept(items: Seq<Value>, keep: spec_fn(Value) -> bool) -> Seq<Value>
    decreases items.len(),
{
    if items.len() == 0 {
        Seq::empty()
    } else if keep(items.last()) {
        kept(items.drop_last(), keep).push(items.last())
    } else {
        kept(items.drop_last(), keep)
    }
}

/// The models of a sequence of values of one type.
pub open spec fn models<T: Model>(xs: Seq<T>) -> Seq<T::M> {
    Seq::new(xs.len(), |i: int| xs[i].model())
}

impl BoltPath {
    /// Copies of the nodes of the path; other values are passed over.
    pub fn nodes(&self) -> (r: Vec<BoltNode>)
        ensures
            models(r@) == kept(list_values(self.nodes), |v: Value| v is Node),
    {
        let ghost items = list_values(self.nodes);
        let n = self.nodes.value.len();
        let mut out: Vec<BoltNode> = Vec::with_capacity(n);
        let mut i: usize = 0;
        while i < n
            invariant
                i <= n,
                n == self.nodes.value@.len(),
                items == list_values(self.nodes),
                models(out@) == kept(items.subrange(0, i as int), |v: Value| v is Node),
            decreases n - i,
        {
            let ghost before = models(out@);
            assert(items.subrange(0, i + 1).drop_last() =~= items.subrange(0, i as int));
            if let BoltType::Node(node) = &self.nodes.value[i] {
                out.push(node.clone());
                assert(models(out@) =~= before.push(items[i as int]));
            }
            i = i + 1;
        }
        assert(items.subrange(0, n as int) =~= items);
        out
    }

    /// Copies of the relationships of the path; other values are passed over.
    pub fn rels(&self) -> (r: Vec<BoltUnboundedRelation>)
        ensures
            models(r@) == kept(list_values(self.rels), |v: Value| v is UnboundedRelation),
    {
        let ghost items = list_values(self.rels);
        let n = self.rels.value.len();
        let mut out: Vec<BoltUnboundedRelation> = Vec::with_capacity(n);
        let mut i: usize = 0;
        while i < n
            invariant
                i <= n,
                n == self.rels.value@.len(),
                items == list_values(self.rels),
                models(out@) == kept(items.subrange(0, i as int), |v: Value| v is UnboundedRelation),
            decreases n - i,
        {
            let ghost before = models(out@);
            assert(items.subrange(0, i + 1).drop_last() =~= items.subrange(0, i as int));
            if let BoltType::UnboundedRelation(rel) = &self.rels.value[i] {
                out.push(rel.clone());
                assert(models(out@) =~= before.push(items[i as int]));
            }
            i = i + 1;
        }
        assert(items.subrange(0, n as int) =~= items);
        out
    }

    /// The integers of the indices of the path; other values are passed over.
    pub fn ids(&self) -> (r: Vec<BoltInteger>)
        ensures
            Seq::new(r@.len(), |k: int| Value::Integer(r@[k].value)) == kept(list_values(self.ids), |v: Value| v is Integer),
    {
        let ghost items = list_values(self.ids);
        let n = self.ids.value.len();
        let mut out: Vec<BoltInteger> = Vec::with_capacity(n);
        let mut i: usize = 0;
        while i < n
            invariant
                i <= n,
                n == self.ids.value@.len(),
                items == list_values(self.ids),
                Seq::new(out@.len(), |k: int| Value::Integer(out@[k].value)) == kept(items.subrange(0, i as int), |v: Value| v is Integer),
            decreases n - i,
        {
            let ghost before = Seq::new(out@.len(), |k: int| Value::Integer(out@[k].value));
            assert(items.subrange(0, i + 1).drop_last() =~= items.subrange(0, i as int));
            if let BoltType::Integer(id) = &self.ids.value[i] {
                out.push(BoltInteger::new(id.value));
                assert(Seq::new(out@.len(), |k: int| Value::Integer(out@[k].value)) =~= before.push(items[i as int]));
            }
            i = i + 1;
        }
        assert(items.subrange(0, n as int) =~= items);
        out
    }

    /// The input starts with the marker and signature of a path.
    pub fn can_parse(_version: Version, input: &[u8]) -> (r: bool)
        ensures
            r == has_signature(input@, MARKER, SIGNATURE),
    {
        input.len() >= 2 && input[0] == MARKER && input[1] == SIGNATURE
    }

    /// Reads a path off the front of `input`; marker and signature are
    /// skipped unchecked.
    pub fn parse(version: Version, input: &mut Bytes) -> (r: Result<BoltPath, Error>)
        requires
            !(decode_path(bytes_content(*old(input))) is Short),
        ensures
            parsed(decode_path(bytes_content(*old(input))), bytes_content(*old(input)), bytes_content(*final(input)), r),
        decreases bytes_content(*old(input)).len(), 0nat,
    {
        let ghost s = bytes_content(*input);
        proof {
            lemma_unfold_decode_path(s);
        }
        let _ = get_u8(input);
        let _ = get_u8(input);
        let ghost s1 = bytes_content(*input);
        assert(s1 =~= s.subrange(2, s.len() as int));
        let nodes = match BoltList::parse(version, input) {
            Ok(x) => x,
            Err(e) => return Err(e),
        };
        let ghost s2 = bytes_content(*input);
        assert(s2 =~= after(s1, (s1.len() - s2.len()) as nat));
        let rels = match BoltList::parse(version, input) {
            Ok(x) => x,
            Err(e) => return Err(e),
        };
        let ghost s3 = bytes_content(*input);
        assert(s3 =~= after(s2, (s2.len() - s3.len()) as nat));
        let ids = match BoltList::parse(version, input) {
            Ok(x) => x,
            Err(e) => return Err(e),
        };
        assert(bytes_content(*input) =~= s.subrange(s.len() - bytes_content(*input).len(), s.len() as int));
        Ok(BoltPath { nodes, rels, ids })
    }

    /// Appends marker, signature and the three lists.
    pub fn write_into(&self, version: Version, bytes: &mut BytesMut) -> (r: Result<(), Error>)
        ensures
            wrote(encode_element(self.model()), buffer_content(*old(bytes)), buffer_content(*final(bytes)), r),
        decreases self, 0nat,
    {
        let ghost b0 = buffer_content(*bytes);
        put_u8(bytes, MARKER);
        put_u8(bytes, SIGNATURE);
        let ghost b1 = buffer_content(*bytes);
        match self.nodes.write_into(version, bytes) {
            Ok(()) => {},
            Err(e) => return Err(e),
        }
        let ghost b2 = buffer_content(*bytes);
        match self.rels.write_into(version, bytes) {
            Ok(()) => {},
            Err(e) => return Err(e),
        }
        let ghost b3 = buffer_content(*bytes);
        match self.ids.write_into(version, bytes) {
            Ok(()) => {},
            Err(e) => return Err(e),
        }
        assert(buffer_content(*bytes) =~= b0 + encode_element(self.model())->Ok_0);
        Ok(())
    }

    /// The encoding of the path.
    pub fn into_bytes(self, version: Version) -> (r: Result<Bytes, Error>)
        ensures
            match encode_element(self.model()) {
                Ok(b) => r matches Ok(x) && bytes_content(x) == b,
                Err(e) => r matches Err(x) && x@ == e,
            },
    {
        let mut bytes = buffer_new();
        match self.write_into(version, &mut bytes) {
            Ok(()) => {
                assert(buffer_content(bytes) =~= encode_element(self.model())->Ok_0);
                Ok(freeze(bytes))
            },
            Err(e) => Err(e),
        }
    }
}

} // verus!
