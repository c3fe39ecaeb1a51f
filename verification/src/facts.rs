//! Facts about the encoding and decoding functions, used by the proofs of
//! the readers and writers.
use vstd::prelude::*;
use crate::model::{ErrorModel, Value};
use crate::wire::{after, encode, encode_entries, encode_items, encode_string, key_index, map_put, then, Decoding};

verus! {

/// Sequencing of encodings is associative.
pub proof fn lemma_then_assoc(
    a: Result<Seq<u8>, ErrorModel>,
    b: Result<Seq<u8>, ErrorModel>,
    c: Result<Seq<u8>, ErrorModel>,
)
    ensures
        then(then(a, b), c) == then(a, then(b, c)),
{
    match (a, b, c) {
        (Ok(x), Ok(y), Ok(z)) => {
            assert(x + y + z =~= x + (y + z));
        },
        _ => {},
    }
}

/// The empty encoding is neutral.
pub proof fn lemma_then_empty(a: Result<Seq<u8>, ErrorModel>)
    ensures
        then(Ok(Seq::empty()), a) == a,
        then(a, Ok(Seq::empty())) == a,
{
    match a {
        Ok(x) => {
            assert(Seq::<u8>::empty() + x =~= x);
            assert(x + Seq::<u8>::empty() =~= x);
        },
        _ => {},
    }
}

/// Encoding the elements of a concatenation.
pub proof fn lemma_encode_items_concat(a: Seq<Value>, b: Seq<Value>)
    ensures
        encode_items(a + b) == then(encode_items(a), encode_items(b)),
    decreases a.len(),
{
    if a.len() == 0 {
        assert(a + b =~= b);
        lemma_then_empty(encode_items(b));
    } else {
        let rest = a.subrange(1, a.len() as int);
        assert((a + b)[0] == a[0]);
        assert((a + b).subrange(1, (a + b).len() as int) =~= rest + b);
        lemma_encode_items_concat(rest, b);
        lemma_then_assoc(encode(a[0]), encode_items(rest), encode_items(b));
    }
}

/// Encoding the elements of a list with one more element at the end.
pub proof fn lemma_encode_items_push(a: Seq<Value>, v: Value)
    ensures
        encode_items(a.push(v)) == then(encode_items(a), encode(v)),
{
    let one = seq![v];
    assert(a.push(v) =~= a + one);
    lemma_encode_items_concat(a, one);
    assert(one.subrange(1, 1) =~= Seq::<Value>::empty());
    assert(encode_items(Seq::<Value>::empty()) == Ok::<Seq<u8>, ErrorModel>(Seq::empty()));
    assert(encode_items(one) == then(encode(v), encode_items(one.subrange(1, 1))));
    lemma_then_empty(encode(v));
}

/// Encoding the entries of a concatenation.
pub proof fn lemma_encode_entries_concat(a: Seq<(Seq<char>, Value)>, b: Seq<(Seq<char>, Value)>)
    ensures
        encode_entries(a + b) == then(encode_entries(a), encode_entries(b)),
    decreases a.len(),
{
    if a.len() == 0 {
        assert(a + b =~= b);
        lemma_then_empty(encode_entries(b));
    } else {
        let rest = a.subrange(1, a.len() as int);
        assert((a + b)[0] == a[0]);
        assert((a + b).subrange(1, (a + b).len() as int) =~= rest + b);
        lemma_encode_entries_concat(rest, b);
        lemma_then_assoc(then(encode_string(a[0].0), encode(a[0].1)), encode_entries(rest), encode_entries(b));
    }
}

/// Encoding the entries of a map with one more entry at the end.
pub proof fn lemma_encode_entries_push(a: Seq<(Seq<char>, Value)>, k: Seq<char>, v: Value)
    ensures
        encode_entries(a.push((k, v))) == then(encode_entries(a), then(encode_string(k), encode(v))),
{
    let one = seq![(k, v)];
    assert(a.push((k, v)) =~= a + one);
    lemma_encode_entries_concat(a, one);
    assert(one.subrange(1, 1) =~= Seq::<(Seq<char>, Value)>::empty());
    assert(encode_entries(Seq::<(Seq<char>, Value)>::empty()) == Ok::<Seq<u8>, ErrorModel>(Seq::empty()));
    assert(encode_entries(one) == then(then(encode_string(k), encode(v)), encode_entries(one.subrange(1, 1))));
    lemma_then_empty(then(encode_string(k), encode(v)));
}

/// `key_index` finds the first entry with the key, or none.
pub proof fn lemma_key_index<V>(m: Seq<(Seq<char>, V)>, k: Seq<char>)
    ensures
        -1 <= key_index(m, k) < m.len(),
        key_index(m, k) == -1 <==> (forall|j: int| 0 <= j < m.len() ==> m[j].0 != k),
        key_index(m, k) >= 0 ==> m[key_index(m, k)].0 == k
            && (forall|j: int| 0 <= j < key_index(m, k) ==> m[j].0 != k),
    decreases m.len(),
{
    if m.len() > 0 {
        let rest = m.subrange(1, m.len() as int);
        lemma_key_index(rest, k);
        assert forall|j: int| 1 <= j < m.len() implies m[j] == rest[j - 1] by {}
    }
}

/// The keys of a map are distinct.
pub open spec fn distinct_keys<V>(m: Seq<(Seq<char>, V)>) -> bool {
    forall|i: int, j: int| 0 <= i < j < m.len() ==> m[i].0 != m[j].0
}

/// Prefixing a decoding outcome of a sequence with values already read.
pub open spec fn prepend<T>(done: Seq<T>, used: nat, d: Decoding<Seq<T>>) -> Decoding<Seq<T>> {
    match d {
        Decoding::Done(rest, c) => Decoding::Done(done + rest, used + c),
        Decoding::Failed(e) => Decoding::Failed(e),
        Decoding::Short => Decoding::Short,
    }
}

/// Prefixing nothing changes nothing.
pub proof fn lemma_prepend_empty<T>(d: Decoding<Seq<T>>)
    ensures
        prepend(Seq::<T>::empty(), 0, d) == d,
{
    match d {
        Decoding::Done(rest, c) => {
            assert(Seq::<T>::empty() + rest =~= rest);
        },
        _ => {},
    }
}

/// Prefixing twice.
pub proof fn lemma_prepend_prepend<T>(a: Seq<T>, n: nat, b: Seq<T>, m: nat, d: Decoding<Seq<T>>)
    ensures
        prepend(a, n, prepend(b, m, d)) == prepend(a + b, n + m, d),
{
    match d {
        Decoding::Done(rest, c) => {
            assert(a + (b + rest) =~= a + b + rest);
        },
        _ => {},
    }
}

/// Encoding the entries up to `i + 1` extends the encoding up to `i`, and
/// an error there is the error of all the entries.
pub proof fn lemma_entries_step(entries: Seq<(Seq<char>, Value)>, i: int)
    requires
        0 <= i < entries.len(),
    ensures
        encode_entries(entries.subrange(0, i + 1)) == then(
            encode_entries(entries.subrange(0, i)),
            then(encode_string(entries[i].0), encode(entries[i].1)),
        ),
        encode_entries(entries.subrange(0, i + 1)) is Err ==> encode_entries(entries) == encode_entries(entries.subrange(0, i + 1)),
        encode_entries(entries.subrange(0, entries.len() as int)) == encode_entries(entries),
{
    let prefix = entries.subrange(0, i);
    lemma_encode_entries_push(prefix, entries[i].0, entries[i].1);
    assert(prefix.push((entries[i].0, entries[i].1)) =~= entries.subrange(0, i + 1));
    lemma_encode_entries_concat(entries.subrange(0, i + 1), entries.subrange(i + 1, entries.len() as int));
    assert(entries.subrange(0, i + 1) + entries.subrange(i + 1, entries.len() as int) =~= entries);
    assert(entries.subrange(0, entries.len() as int) =~= entries);
}

} // verus!
