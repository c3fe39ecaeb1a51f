use vstd::prelude::*;
use bytes::{Bytes, BytesMut};
use crate::buffer::{buffer_content, buffer_new, bytes_content, freeze, get_u16, get_u32, get_u8, put_bytes, put_u16, put_u32, put_u8};
use crate::errors::Error;
use crate::facts::{lemma_encode_items_concat, lemma_encode_items_push, lemma_prepend_empty, lemma_prepend_prepend, prepend};
use crate::model::{ErrorModel, Value};
use crate::text::marker_message;
use crate::types::{list_values, type_model, BoltType};
use crate::version::Version;
use crate::wire::{lemma_unfold_decode_items, lemma_unfold_decode_list, after, decode, decode_items, decode_list, encode, encode_items, encode_list, is_list_marker, list_size, parsed, wrote, Decoding, Model, Size};

verus! {

pub const TINY: u8 = 0x90;
pub const SMALL: u8 = 0xD4;
pub const MEDIUM: u8 = 0xD5;
pub const LARGE: u8 = 0xD6;

/// A list of values.
#[derive(Debug, PartialEq)]
pub struct BoltList {
    pub value: Vec<BoltType>,
}

impl Model for BoltList {
    type M = Seq<Value>;

    open spec fn model(&self) -> Seq<Value> {
        list_values(*self)
    }
}

impl BoltList {
    pub fn new() -> (r: BoltList)
        ensures
            r.value@.len() == 0,
    {
        BoltList { value: Vec::new() }
    }

    /// An empty list with room for `capacity` elements.
    pub fn with_capacity(capacity: usize) -> (r: BoltList)
        ensures
            r.value@.len() == 0,
    {
        BoltList { value: Vec::with_capacity(capacity) }
    }

    pub fn len(&self) -> (n: usize)
        ensures
            n == self.value@.len(),
    {
        self.value.len()
    }

    pub fn is_empty(&self) -> (b: bool)
        ensures
            b == (self.value@.len() == 0),
    {
        self.value.len() == 0
    }

    /// Appends a value.
    pub fn push(&mut self, value: BoltType)
        ensures
            final(self).value@ == old(self).value@.push(value),
    {
        self.value.push(value);
    }

    /// The value at `index`, if there is one.
    pub fn get(&self, index: usize) -> (r: Option<&BoltType>)
        ensures
            index < self.value@.len() ==> r == Some(&self.value@[index as int]),
            index >= self.value@.len() ==> r is None,
    {
        if index < self.value.len() {
            Some(&self.value[index])
        } else {
            None
        }
    }

    /// The first byte is the marker of a list.
    pub fn can_parse(_version: Version, input: &[u8]) -> (r: bool)
        requires
            input@.len() >= 1,
        ensures
            r == is_list_marker(input@[0]),
    {
        let marker = input[0];
        assert(TINY | 0x0F == 0x9Fu8) by (bit_vector);
        (TINY <= marker && marker <= (TINY | 0x0F)) || marker == SMALL || marker == MEDIUM
            || marker == LARGE
    }

    /// Appends the size and the elements; the elements are encoded first, so
    /// that an error of an element comes before an error of the size.
    pub fn write_into(&self, version: Version, bytes: &mut BytesMut) -> (r: Result<(), Error>)
        ensures
            wrote(encode_list(list_values(*self)), buffer_content(*old(bytes)), buffer_content(*final(bytes)), r),
        decreases self, 0nat,
    {
        let ghost items = list_values(*self);
        let ghost b0 = buffer_content(*bytes);
        let mut values = buffer_new();
        let length = self.value.len();
        let mut i: usize = 0;
        assert(items.subrange(0, 0) =~= Seq::<Value>::empty());
        while i < length
            invariant
                i <= length,
                length == self.value@.len(),
                items == list_values(*self),
                encode_items(items.subrange(0, i as int)) == Ok::<Seq<u8>, ErrorModel>(buffer_content(values)),
            decreases length - i,
        {
            let ghost prefix = items.subrange(0, i as int);
            proof {
                lemma_encode_items_push(prefix, items[i as int]);
                assert(prefix.push(items[i as int]) =~= items.subrange(0, i + 1));
                assert(items[i as int] == type_model(self.value@[i as int]));
            }
            match self.value[i].write_into(version, &mut values) {
                Ok(()) => {},
                Err(e) => {
                    proof {
                        lemma_encode_items_concat(items.subrange(0, i + 1), items.subrange(i + 1, items.len() as int));
                        assert(items.subrange(0, i + 1) + items.subrange(i + 1, items.len() as int) =~= items);
                    }
                    return Err(e);
                },
            }
            i = i + 1;
        }
        assert(items.subrange(0, length as int) =~= items);
        if length <= 15 {
            put_u8(bytes, TINY | length as u8);
        } else if length <= 255 {
            put_u8(bytes, SMALL);
            put_u8(bytes, length as u8);
        } else if length <= 65_535 {
            put_u8(bytes, MEDIUM);
            put_u16(bytes, length as u16);
        } else if length as u64 <= 2_147_483_648 {
            put_u8(bytes, LARGE);
            put_u32(bytes, length as u32);
        } else {
            return Err(Error::ListTooLong);
        }
        let ghost body = buffer_content(values);
        put_bytes(bytes, freeze(values));
        assert(buffer_content(*bytes) =~= b0 + encode_list(items)->Ok_0);
        Ok(())
    }

    /// The encoding of the list.
    pub fn into_bytes(self, version: Version) -> (r: Result<Bytes, Error>)
        ensures
            match encode_list(list_values(self)) {
                Ok(b) => r matches Ok(x) && bytes_content(x) == b,
                Err(e) => r matches Err(x) && x@ == e,
            },
    {
        let mut bytes = buffer_new();
        match self.write_into(version, &mut bytes) {
            Ok(()) => {
                assert(buffer_content(bytes) =~= encode_list(list_values(self))->Ok_0);
                Ok(freeze(bytes))
            },
            Err(e) => Err(e),
        }
    }

    /// Reads a list off the front of `input`: its size, then as many values.
    pub fn parse(version: Version, input: &mut Bytes) -> (r: Result<BoltList, Error>)
        requires
            !(decode_list(bytes_content(*old(input))) is Short),
        ensures
            parsed(decode_list(bytes_content(*old(input))), bytes_content(*old(input)), bytes_content(*final(input)), r),
        decreases bytes_content(*old(input)).len(), 0nat,
    {
        let ghost s = bytes_content(*input);
        proof {
            lemma_unfold_decode_list(s);
        }
        let marker = get_u8(input);
        assert(s.subrange(1, s.len() as int) =~= bytes_content(*input));
        let size: usize = if TINY <= marker && marker <= 0x9F {
            (marker & 0x0F) as usize
        } else if marker == SMALL {
            get_u8(input) as usize
        } else if marker == MEDIUM {
            get_u16(input) as usize
        } else if marker == LARGE {
            get_u32(input) as usize
        } else {
            return Err(Error::InvalidTypeMarker(marker_message("list", marker)));
        };
        let ghost h: nat = (s.len() - bytes_content(*input).len()) as nat;
        let ghost s0 = bytes_content(*input);
        assert(s0 =~= after(s, h));
        assert(list_size(s) == Size::Of(size as nat, h));
        assert(0 < h <= s.len());
        assert(decode_list(s) is Short <==> decode_items(s0, size as nat) is Short);
        let mut list = BoltList::with_capacity(size);
        let mut i: usize = 0;
        let ghost mut c: nat = 0;
        proof {
            lemma_prepend_empty(decode_items(s0, size as nat));
            assert(s0.subrange(0, s0.len() as int) =~= s0);
            assert(list_values(list) =~= Seq::<Value>::empty());
        }
        while i < size
            invariant
                i <= size,
                c <= s0.len(),
                s0.len() < s.len(),
                bytes_content(*input) == s0.subrange(c as int, s0.len() as int),
                list_values(list).len() == i,
                decode_items(s0, size as nat) == prepend(list_values(list), c, decode_items(bytes_content(*input), (size - i) as nat)),
                !(decode_items(s0, size as nat) is Short),
                s == bytes_content(*old(input)),
                s0 == after(s, h),
                0 < h <= s.len(),
                list_size(s) == Size::Of(size as nat, h),
            decreases size - i,
        {
            let ghost cur = bytes_content(*input);
            let ghost rest_n = (size - i - 1) as nat;
            assert(decode_items(cur, (size - i) as nat) == match decode(cur) {
                Decoding::Done(v, n) => prepend(seq![v], n, decode_items(after(cur, n), rest_n)),
                Decoding::Failed(e) => Decoding::Failed(e),
                Decoding::Short => Decoding::Short,
            }) by {
                lemma_unfold_decode_items(cur, (size - i) as nat);
                match decode(cur) {
                    Decoding::Done(v, n) => {
                        match decode_items(after(cur, n), rest_n) {
                            Decoding::Done(rest, m) => {},
                            _ => {},
                        }
                    },
                    _ => {},
                }
            }
            let x = match BoltType::parse(version, input) {
                Ok(x) => x,
                Err(e) => {
                    proof {
                        lemma_unfold_decode_list(s);
                    }
                    return Err(e);
                },
            };
            let ghost n = (cur.len() - bytes_content(*input).len()) as nat;
            let ghost before = list_values(list);
            proof {
                lemma_prepend_prepend(before, c, seq![type_model(x)], n, decode_items(after(cur, n), rest_n));
                assert(bytes_content(*input) =~= s0.subrange((c + n) as int, s0.len() as int));
                c = c + n;
            }
            list.push(x);
            proof {
                assert(list_values(list) =~= before + seq![type_model(x)]);
            }
            i = i + 1;
        }
        proof {
            lemma_unfold_decode_list(s);
            lemma_unfold_decode_items(bytes_content(*input), 0);
            assert(list_values(list) + Seq::<Value>::empty() =~= list_values(list));
            assert(bytes_content(*input) =~= s.subrange((h + c) as int, s.len() as int));
        }
        Ok(list)
    }
}

} // verus!
