use vstd::prelude::*;
use vstd::utf8::encode_utf8;
use std::collections::HashMap;
use bytes::{Bytes, BytesMut};
use crate::buffer::{buffer_content, buffer_new, bytes_content, freeze, get_u16, get_u32, get_u8, put_u16, put_u32, put_u8};
use crate::errors::Error;
use crate::facts::{distinct_keys, lemma_entries_step, lemma_key_index, lemma_prepend_empty, lemma_prepend_prepend, prepend};
use crate::model::{ErrorModel, Value};
use crate::text::{marker_message, str_eq};
use crate::types::{map_values, type_model, BoltString, BoltType};
use crate::version::Version;
use crate::wire::{lemma_unfold_decode_dict, lemma_unfold_decode_entries, after, decode, decode_dict, decode_entries, decode_string, encode_dict, encode_entries, is_map_marker, key_index, map_header, map_put, map_size, parsed, puts, wrote, Decoding, Model, Size};

verus! {

pub const TINY: u8 = 0xA0;
pub const SMALL: u8 = 0xD8;
pub const MEDIUM: u8 = 0xD9;
pub const LARGE: u8 = 0xDA;

/// The hash under which the index of a map files a key: FNV-1a of its
/// UTF-8 bytes.
pub open spec fn key_hash(bytes: Seq<u8>) -> u64
    decreases bytes.len(),
{
    if bytes.len() == 0 {
        0xcbf2_9ce4_8422_2325
    } else {
        vstd::wrapping::u64_specs::wrapping_mul(key_hash(bytes.drop_last()) ^ (bytes.last() as u64), 0x100_0000_01b3)
    }
}

/// The hash of a key, computed over its UTF-8 bytes.
fn hash_key(key: &str) -> (h: u64)
    ensures
        h == key_hash(encode_utf8(key@)),
{
    let bytes = key.as_bytes();
    let mut h: u64 = 0xcbf2_9ce4_8422_2325;
    let mut i: usize = 0;
    while i < bytes.len()
        invariant
            i <= bytes@.len(),
            bytes@ == encode_utf8(key@),
            h == key_hash(bytes@.subrange(0, i as int)),
        decreases bytes@.len() - i,
    {
        assert(bytes@.subrange(0, i + 1).drop_last() =~= bytes@.subrange(0, i as int));
        h = (h ^ (bytes[i] as u64)).wrapping_mul(0x100_0000_01b3);
        i = i + 1;
    }
    assert(bytes@.subrange(0, bytes@.len() as int) =~= bytes@);
    h
}

/// A map from strings to values; `put` keeps each key at most once, and an
/// index files the position of each key under the hash of the key.
#[derive(Debug, PartialEq)]
pub struct BoltMap {
    pub value: Vec<(BoltString, BoltType)>,
    pub index: HashMap<u64, Vec<usize>>,
}

/// The index files position `i` under hash `h`.
pub open spec fn files(index: Map<u64, Vec<usize>>, h: u64, i: int) -> bool {
    index.contains_key(h) && index[h]@.contains(i as usize)
}

impl Model for BoltMap {
    type M = Seq<(Seq<char>, Value)>;

    open spec fn model(&self) -> Seq<(Seq<char>, Value)> {
        map_values(*self)
    }
}

impl BoltMap {
    /// The keys are distinct and the index files each position, and only
    /// the positions, under the hash of its key.
    pub closed spec fn wf(&self) -> bool {
        &&& forall|i: int, j: int| 0 <= i < j < self.value@.len() ==> self.value@[i].0.value@ != self.value@[j].0.value@
        &&& forall|i: int| 0 <= i < self.value@.len()
            ==> #[trigger] files(self.index@, key_hash(encode_utf8(self.value@[i].0.value@)), i)
        &&& forall|h: u64, j: int| self.index@.contains_key(h) && 0 <= j < self.index@[h]@.len()
            ==> #[trigger] self.index@[h]@[j] < self.value@.len()
                && key_hash(encode_utf8(self.value@[self.index@[h]@[j] as int].0.value@)) == h
    }

    /// A well-formed map has distinct keys.
    pub proof fn lemma_distinct_keys(&self)
        requires
            self.wf(),
        ensures
            distinct_keys(map_values(*self)),
    {
    }

    pub fn new() -> (r: BoltMap)
        ensures
            r.wf(),
            r.value@.len() == 0,
    {
        BoltMap { value: Vec::new(), index: HashMap::new() }
    }

    /// An empty map with room for `capacity` entries.
    pub fn with_capacity(capacity: usize) -> (r: BoltMap)
        ensures
            r.wf(),
            r.value@.len() == 0,
    {
        BoltMap { value: Vec::with_capacity(capacity), index: HashMap::new() }
    }

    pub fn is_empty(&self) -> (b: bool)
        ensures
            b == (self.value@.len() == 0),
    {
        self.value.len() == 0
    }

    pub fn len(&self) -> (n: usize)
        ensures
            n == self.value@.len(),
    {
        self.value.len()
    }

    /// The position of `key`, found through the index.
    fn position(&self, key: &str) -> (r: Option<usize>)
        requires
            self.wf(),
        ensures
            r is None <==> key_index(map_values(*self), key@) < 0,
            r matches Some(p) ==> p as int == key_index(map_values(*self), key@),
    {
        broadcast use vstd::std_specs::hash::group_hash_axioms;
        let ghost m = map_values(*self);
        proof {
            lemma_key_index(m, key@);
        }
        let h = hash_key(key);
        match self.index.get(&h) {
            Some(bucket) => {
                let mut j: usize = 0;
                while j < bucket.len()
                    invariant
                        self.wf(),
                        m == map_values(*self),
                        self.index@.contains_key(h),
                        self.index@[h] == *bucket,
                        h == key_hash(encode_utf8(key@)),
                        j <= bucket@.len(),
                        forall|k: int| 0 <= k < j ==> self.value@[bucket@[k] as int].0.value@ != key@,
                    decreases bucket@.len() - j,
                {
                    let p = bucket[j];
                    assert(self.index@[h]@[j as int] == p);
                    if str_eq(self.value[p].0.value.as_str(), key) {
                        proof {
                            lemma_key_index(m, key@);
                            assert(m[p as int].0 == key@);
                        }
                        return Some(p);
                    }
                    j = j + 1;
                }
                proof {
                    assert forall|i: int| 0 <= i < m.len() implies m[i].0 != key@ by {
                        if m[i].0 == key@ {
                            assert(self.value@[i].0.value@ == key@);
                            assert(files(self.index@, key_hash(encode_utf8(self.value@[i].0.value@)), i));
                            assert(self.index@[h]@.contains(i as usize));
                            assert(i < self.value.len());
                            let k = choose|k: int| 0 <= k < bucket@.len() && bucket@[k] == i as usize;
                            assert(self.value@[bucket@[k] as int].0.value@ != key@);
                        }
                    }
                }
                None
            },
            None => {
                proof {
                    assert forall|i: int| 0 <= i < m.len() implies m[i].0 != key@ by {
                        if m[i].0 == key@ {
                            assert(files(self.index@, key_hash(encode_utf8(self.value@[i].0.value@)), i));
                        }
                    }
                }
                None
            },
        }
    }

    /// Puts an entry: the value of an existing key is replaced, a new key is
    /// added at the end.
    pub fn put(&mut self, key: BoltString, value: BoltType)
        requires
            old(self).wf(),
        ensures
            final(self).wf(),
            map_values(*final(self)) == map_put(map_values(*old(self)), key.value@, type_model(value)),
    {
        broadcast use vstd::std_specs::hash::group_hash_axioms;
        let ghost m = map_values(*self);
        let ghost k = key.value@;
        let ghost v = type_model(value);
        proof {
            lemma_key_index(m, k);
        }
        match self.position(key.value.as_str()) {
            Some(p) => {
                self.value.set(p, (key, value));
                assert(map_values(*self) =~= m.update(p as int, (k, v)));
            },
            None => {
                let h = hash_key(key.value.as_str());
                let pos = self.value.len();
                let mut bucket: Vec<usize> = match self.index.get(&h) {
                    Some(b) => b.clone(),
                    None => Vec::new(),
                };
                let ghost old_bucket = bucket@;
                bucket.push(pos);
                self.value.push((key, value));
                self.index.insert(h, bucket);
                assert(map_values(*self) =~= m.push((k, v)));
                proof {
                    assert(self.value@[pos as int].0.value@ == k);
                    assert forall|i: int| 0 <= i < self.value@.len()
                        implies #[trigger] files(self.index@, key_hash(encode_utf8(self.value@[i].0.value@)), i) by {
                        if i < pos {
                            let hi = key_hash(encode_utf8(self.value@[i].0.value@));
                            assert(files(old(self).index@, hi, i));
                            if hi == h {
                                let idx = old_bucket.index_of(i as usize);
                                assert(self.index@[h]@[idx] == i as usize);
                            }
                        } else {
                            assert(self.index@[h]@[old_bucket.len() as int] == pos);
                        }
                    }
                    assert forall|g: u64, j: int| self.index@.contains_key(g) && 0 <= j < self.index@[g]@.len()
                        implies #[trigger] self.index@[g]@[j] < self.value@.len()
                            && key_hash(encode_utf8(self.value@[self.index@[g]@[j] as int].0.value@)) == g by {
                        if g == h {
                            if j < old_bucket.len() {
                                assert(old(self).index@.contains_key(h));
                                assert(old(self).index@[h]@[j] == self.index@[g]@[j]);
                            }
                        } else {
                            assert(old(self).index@[g] == self.index@[g]);
                        }
                    }
                    assert forall|i: int, j: int| 0 <= i < j < self.value@.len()
                        implies self.value@[i].0.value@ != self.value@[j].0.value@ by {
                        if j == pos {
                            assert(m[i].0 == self.value@[i].0.value@);
                        }
                    }
                }
            },
        }
    }

    /// The value of `key`, if the map has one.
    pub fn get_value(&self, key: &str) -> (r: Option<&BoltType>)
        requires
            self.wf(),
        ensures
            key_index(map_values(*self), key@) < 0 ==> r is None,
            key_index(map_values(*self), key@) >= 0 ==> r == Some(&self.value@[key_index(map_values(*self), key@)].1),
    {
        proof {
            lemma_key_index(map_values(*self), key@);
        }
        match self.position(key) {
            Some(p) => Some(&self.value[p].1),
            None => None,
        }
    }

    /// A copy of the map.
    pub fn copied(&self) -> (r: BoltMap)
        ensures
            map_values(r) == map_values(*self),
            self.wf() ==> r.wf(),
        decreases self, 1nat,
    {
        let n = self.value.len();
        let mut value: Vec<(BoltString, BoltType)> = Vec::with_capacity(n);
        let mut i: usize = 0;
        while i < n
            invariant
                i <= n,
                n == self.value@.len(),
                value@.len() == i,
                forall|k: int| 0 <= k < i ==> (#[trigger] value@[k]).0.value@ == self.value@[k].0.value@
                    && type_model(value@[k].1) == type_model(self.value@[k].1),
            decreases n - i,
        {
            let key = BoltString { value: self.value[i].0.value.clone() };
            let v = self.value[i].1.clone();
            value.push((key, v));
            i = i + 1;
        }
        let r = BoltMap { value, index: self.index.clone() };
        assert(map_values(r) =~= map_values(*self));
        r
    }

    /// The first byte is the marker of a map.
    pub fn can_parse(_version: Version, input: &[u8]) -> (r: bool)
        requires
            input@.len() >= 1,
        ensures
            r == is_map_marker(input@[0]),
    {
        let marker = input[0];
        assert(TINY | 0x0F == 0xAFu8) by (bit_vector);
        (TINY <= marker && marker <= (TINY | 0x0F)) || marker == SMALL || marker == MEDIUM
            || marker == LARGE
    }

    /// Appends the size, then each key and value.
    #[verifier::rlimit(50)]
    pub fn write_into(&self, version: Version, bytes: &mut BytesMut) -> (r: Result<(), Error>)
        ensures
            wrote(encode_dict(map_values(*self)), buffer_content(*old(bytes)), buffer_content(*final(bytes)), r),
        decreases self, 0nat,
    {
        let ghost entries = map_values(*self);
        let ghost b0 = buffer_content(*bytes);
        let length = self.value.len();
        if length <= 15 {
            put_u8(bytes, TINY | length as u8);
        } else if length <= 255 {
            put_u8(bytes, SMALL);
            put_u8(bytes, length as u8);
        } else if length <= 65_535 {
            put_u8(bytes, MEDIUM);
            put_u16(bytes, length as u16);
        } else if length as u64 <= 4_294_967_295 {
            put_u8(bytes, LARGE);
            put_u32(bytes, length as u32);
        } else {
            return Err(Error::MapTooBig);
        }
        let ghost b1 = buffer_content(*bytes);
        let ghost hd = map_header(length as nat)->Ok_0;
        assert(b1 =~= b0 + hd);
        let mut i: usize = 0;
        assert(entries.subrange(0, 0) =~= Seq::<(Seq<char>, Value)>::empty());
        assert(b1 =~= b1 + Seq::<u8>::empty());
        while i < length
            invariant
                i <= length,
                length == self.value@.len(),
                entries == map_values(*self),
                b0 == buffer_content(*old(bytes)),
                map_header(length as nat) == Ok::<Seq<u8>, ErrorModel>(hd),
                b1 == b0 + hd,
                encode_entries(entries.subrange(0, i as int)) matches Ok(done)
                    && buffer_content(*bytes) == b1 + done,
            decreases length - i,
        {
            proof {
                lemma_entries_step(entries, i as int);
            }
            match self.value[i].0.write_into(version, bytes) {
                Ok(()) => {},
                Err(e) => return Err(e),
            }
            match self.value[i].1.write_into(version, bytes) {
                Ok(()) => {},
                Err(e) => return Err(e),
            }
            assert(buffer_content(*bytes) =~= b1 + encode_entries(entries.subrange(0, i + 1))->Ok_0);
            i = i + 1;
        }
        assert(entries.subrange(0, length as int) =~= entries);
        assert(buffer_content(*bytes) =~= b0 + encode_dict(entries)->Ok_0);
        Ok(())
    }

    /// The encoding of the map.
    pub fn into_bytes(self, version: Version) -> (r: Result<Bytes, Error>)
        ensures
            match encode_dict(map_values(self)) {
                Ok(b) => r matches Ok(x) && bytes_content(x) == b,
                Err(e) => r matches Err(x) && x@ == e,
            },
    {
        let mut bytes = buffer_new();
        match self.write_into(version, &mut bytes) {
            Ok(()) => {
                assert(buffer_content(bytes) =~= encode_dict(map_values(self))->Ok_0);
                Ok(freeze(bytes))
            },
            Err(e) => Err(e),
        }
    }

    /// Reads a map off the front of `input`: its size, then as many keys and
    /// values, each put into the map in turn.
    #[verifier::rlimit(50)]
    pub fn parse(version: Version, input: &mut Bytes) -> (r: Result<BoltMap, Error>)
        requires
            !(decode_dict(bytes_content(*old(input))) is Short),
        ensures
            parsed(decode_dict(bytes_content(*old(input))), bytes_content(*old(input)), bytes_content(*final(input)), r),
            r matches Ok(m) ==> m.wf(),
        decreases bytes_content(*old(input)).len(), 0nat,
    {
        let ghost s = bytes_content(*input);
        proof {
            lemma_unfold_decode_dict(s);
        }
        let marker = get_u8(input);
        assert(s.subrange(1, s.len() as int) =~= bytes_content(*input));
        let size: usize = if TINY <= marker && marker <= 0xAF {
            (marker & 0x0F) as usize
        } else if marker == SMALL {
            get_u8(input) as usize
        } else if marker == MEDIUM {
            get_u16(input) as usize
        } else if marker == LARGE {
            get_u32(input) as usize
        } else {
            return Err(Error::InvalidTypeMarker(marker_message("map", marker)));
        };
        let ghost h: nat = (s.len() - bytes_content(*input).len()) as nat;
        let ghost s0 = bytes_content(*input);
        assert(s0 =~= after(s, h));
        assert(map_size(s) == Size::Of(size as nat, h));
        let mut map = BoltMap::new();
        let mut i: usize = 0;
        let ghost mut c: nat = 0;
        let ghost mut raw: Seq<(Seq<char>, Value)> = Seq::empty();
        proof {
            lemma_prepend_empty(decode_entries(s0, size as nat));
            assert(s0.subrange(0, s0.len() as int) =~= s0);
            assert(map_values(map) =~= puts(raw));
        }
        while i < size
            invariant
                i <= size,
                c <= s0.len(),
                s0.len() < s.len(),
                bytes_content(*input) == s0.subrange(c as int, s0.len() as int),
                raw.len() == i,
                map.wf(),
                map_values(map) == puts(raw),
                decode_entries(s0, size as nat) == prepend(raw, c, decode_entries(bytes_content(*input), (size - i) as nat)),
                !(decode_entries(s0, size as nat) is Short),
                s == bytes_content(*old(input)),
                s0 == after(s, h),
                0 < h <= s.len(),
                map_size(s) == Size::Of(size as nat, h),
            decreases size - i,
        {
            let ghost cur = bytes_content(*input);
            let ghost rest_n = (size - i - 1) as nat;
            assert(decode_entries(cur, (size - i) as nat) == match decode_string(cur) {
                Decoding::Done(k, c1) => match decode(after(cur, c1)) {
                    Decoding::Done(v, c2) => prepend(seq![(k, v)], c1 + c2, decode_entries(after(after(cur, c1), c2), rest_n)),
                    Decoding::Failed(e) => Decoding::Failed(e),
                    Decoding::Short => Decoding::Short,
                },
                Decoding::Failed(e) => Decoding::Failed(e),
                Decoding::Short => Decoding::Short,
            }) by {
                lemma_unfold_decode_entries(cur, (size - i) as nat);
                match decode_string(cur) {
                    Decoding::Done(k, c1) => {
                        match decode(after(cur, c1)) {
                            Decoding::Done(v, c2) => {
                                match decode_entries(after(after(cur, c1), c2), rest_n) {
                                    Decoding::Done(rest, m) => {},
                                    _ => {},
                                }
                            },
                            _ => {},
                        }
                    },
                    _ => {},
                }
            }
            let key = match BoltString::parse(version, input) {
                Ok(x) => x,
                Err(e) => {
                    proof {
                        lemma_unfold_decode_dict(s);
                    }
                    return Err(e);
                },
            };
            let ghost mid = bytes_content(*input);
            let ghost c1 = (cur.len() - mid.len()) as nat;
            assert(mid =~= after(cur, c1));
            let value = match BoltType::parse(version, input) {
                Ok(x) => x,
                Err(e) => {
                    proof {
                        lemma_unfold_decode_dict(s);
                    }
                    return Err(e);
                },
            };
            let ghost c2 = (mid.len() - bytes_content(*input).len()) as nat;
            let ghost k = key.value@;
            let ghost v = type_model(value);
            proof {
                lemma_prepend_prepend(raw, c, seq![(k, v)], c1 + c2, decode_entries(after(mid, c2), rest_n));
                assert(bytes_content(*input) =~= s0.subrange((c + c1 + c2) as int, s0.len() as int));
                assert(after(after(cur, c1), c2) =~= after(mid, c2));
                c = c + c1 + c2;
                assert(raw + seq![(k, v)] =~= raw.push((k, v)));
                assert(raw.push((k, v)).drop_last() =~= raw);
                raw = raw.push((k, v));
            }
            map.put(key, value);
            i = i + 1;
        }
        proof {
            lemma_unfold_decode_dict(s);
            lemma_unfold_decode_entries(bytes_content(*input), 0);
            assert(raw + Seq::<(Seq<char>, Value)>::empty() =~= raw);
            assert(bytes_content(*input) =~= s.subrange((h + c) as int, s.len() as int));
        }
        Ok(map)
    }
}

} // verus!
