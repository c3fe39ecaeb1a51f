//! A hash map behind a read-write lock, shared by all of its clones.
//!
//! The contents live behind the lock and any clone may change them between
//! two calls, so the contracts below speak of what holds whatever another
//! thread did: what a call hands to its closures and what it returns of them.
use vstd::prelude::*;
use vstd::rwlock::{RwLock, RwLockPredicate};
use std::collections::HashMap;
use std::collections::hash_map::{Keys, Values};
use std::hash::Hash;
use std::sync::Arc;
use vstd::std_specs::hash::obeys_key_model;
use vstd::pervasive::cloned;

verus! {

/// `Iterator::next` on the walk over the keys of a `HashMap`: the next key,
/// if any is left. Nothing is claimed of which key comes, or when none does.
#[verifier::external_body]
fn next_key<'a, K, V>(walk: &mut Keys<'a, K, V>) -> (r: Option<&'a K>) {
    walk.next()
}

/// `Iterator::next` on the walk over the values of a `HashMap`: the next
/// value, if any is left. Nothing is claimed of which value comes, or when
/// none does.
#[verifier::external_body]
fn next_value<'a, K, V>(walk: &mut Values<'a, K, V>) -> (r: Option<&'a V>) {
    walk.next()
}

/// Gives `key` a value in `map`: `update_fn` of the value it has, or `value`
/// where it has none; answers the new value. Afterwards the map holds (a
/// clone of) that value under `key` and every other key as it was. (vstd
/// states a `HashMap`'s contents for key types that obey its key model,
/// hence the condition.)
pub fn upsert<K: Eq + Hash, V: Clone, F: FnOnce(&V) -> V>(map: &mut HashMap<K, V>, key: K, value: V, update_fn: F) -> (r: V)
    requires
        forall|v: &V| update_fn.requires((v,)),
    ensures
        r == value || exists|v: &V| update_fn.ensures((v,), r),
        obeys_key_model::<K>() ==> {
            &&& old(map)@.contains_key(key) ==> update_fn.ensures((&old(map)@[key],), r)
            &&& !old(map)@.contains_key(key) ==> r == value
            &&& final(map)@.contains_key(key)
            &&& cloned::<V>(r, final(map)@[key])
            &&& final(map)@ == old(map)@.insert(key, final(map)@[key])
        },
{
    broadcast use vstd::std_specs::hash::group_hash_axioms;
    match map.get(&key) {
        Some(existing) => {
            let new_value = update_fn(existing);
            map.insert(key, new_value.clone());
            new_value
        },
        None => {
            map.insert(key, value.clone());
            value
        },
    }
}

/// The lock admits any map.
pub struct AnyMap;

impl<K, V> RwLockPredicate<HashMap<K, V>> for AnyMap {
    open spec fn inv(self, v: HashMap<K, V>) -> bool {
        true
    }
}

/// A map that many threads may read and write; clones share the contents.
#[derive(Clone)]
pub struct ConcurrentHashMap<K, V> {
    inner: Arc<RwLock<HashMap<K, V>, AnyMap>>,
}

impl<K: Eq + Hash + Clone, V: Clone> ConcurrentHashMap<K, V> {
    /// An empty map.
    pub fn new() -> (r: Self) {
        ConcurrentHashMap { inner: Arc::new(RwLock::new(HashMap::new(), Ghost(AnyMap))) }
    }

    /// An empty map with room for `capacity` entries.
    pub fn with_capacity(capacity: usize) -> (r: Self) {
        ConcurrentHashMap { inner: Arc::new(RwLock::new(HashMap::with_capacity(capacity), Ghost(AnyMap))) }
    }

    /// Sets the value of `key`; answers the value it replaced, if any.
    pub fn insert(&self, key: K, value: V) -> (r: Option<V>) {
        let (mut map, handle) = self.inner.acquire_write();
        let old = map.insert(key, value);
        handle.release_write(map);
        old
    }

    /// A copy of the value of `key`, if it has one.
    pub fn get(&self, key: &K) -> (r: Option<V>) {
        let handle = self.inner.acquire_read();
        let r = match handle.borrow().get(key) {
            Some(v) => Some(v.clone()),
            None => None,
        };
        handle.release_read();
        r
    }

    /// Takes `key` out of the map; answers its value, if it had one.
    pub fn remove(&self, key: &K) -> (r: Option<V>) {
        let (mut map, handle) = self.inner.acquire_write();
        let old = map.remove(key);
        handle.release_write(map);
        old
    }

    /// Whether `key` has a value.
    pub fn contains_key(&self, key: &K) -> (r: bool) {
        let handle = self.inner.acquire_read();
        let r = handle.borrow().contains_key(key);
        handle.release_read();
        r
    }

    /// The number of entries.
    pub fn len(&self) -> (r: usize) {
        let handle = self.inner.acquire_read();
        let r = handle.borrow().len();
        handle.release_read();
        r
    }

    /// Whether the map has no entries.
    pub fn is_empty(&self) -> (r: bool) {
        let handle = self.inner.acquire_read();
        let r = handle.borrow().is_empty();
        handle.release_read();
        r
    }

    /// Removes every entry.
    pub fn clear(&self) {
        let (mut map, handle) = self.inner.acquire_write();
        map.clear();
        handle.release_write(map);
    }

    /// Copies of the keys, in the order the map walks them.
    pub fn keys(&self) -> (r: Vec<K>) {
        let handle = self.inner.acquire_read();
        let map = handle.borrow();
        let n = map.len();
        let mut walk = map.keys();
        let mut out: Vec<K> = Vec::with_capacity(n);
        let mut i: usize = 0;
        while i < n
            decreases n - i,
        {
            match next_key(&mut walk) {
                Some(k) => out.push(k.clone()),
                None => break,
            }
            i = i + 1;
        }
        handle.release_read();
        out
    }

    /// Copies of the values, in the order the map walks them.
    pub fn values(&self) -> (r: Vec<V>) {
        let handle = self.inner.acquire_read();
        let map = handle.borrow();
        let n = map.len();
        let mut walk = map.values();
        let mut out: Vec<V> = Vec::with_capacity(n);
        let mut i: usize = 0;
        while i < n
            decreases n - i,
        {
            match next_value(&mut walk) {
                Some(v) => out.push(v.clone()),
                None => break,
            }
            i = i + 1;
        }
        handle.release_read();
        out
    }

    /// Under the write lock, `upsert`s the map: a key with a value gets
    /// `update_fn` of it, a key without one gets `value`; answers what the
    /// key now holds. (What the map holds is behind the lock, where another
    /// clone may change it at once; `upsert` states the change itself.)
    pub fn insert_or_update<F: FnOnce(&V) -> V>(&self, key: K, value: V, update_fn: F) -> (r: V)
        requires
            forall|v: &V| update_fn.requires((v,)),
        ensures
            r == value || exists|v: &V| update_fn.ensures((v,), r),
    {
        let (mut map, handle) = self.inner.acquire_write();
        let r = upsert(&mut map, key, value, update_fn);
        handle.release_write(map);
        r
    }

    /// Runs `f` on the map under the read lock and answers what it answered.
    pub fn with_read<F: FnOnce(&HashMap<K, V>) -> R, R>(&self, f: F) -> (r: R)
        requires
            forall|m: &HashMap<K, V>| f.requires((m,)),
        ensures
            exists|m: &HashMap<K, V>| f.ensures((m,), r),
    {
        let handle = self.inner.acquire_read();
        let r = f(handle.borrow());
        handle.release_read();
        r
    }

    /// Runs `f` on the map under the write lock and answers what it answered.
    pub fn with_write<F: FnOnce(&mut HashMap<K, V>) -> R, R>(&self, f: F) -> (r: R)
        requires
            forall|m: &mut HashMap<K, V>| f.requires((m,)),
        ensures
            exists|m: &mut HashMap<K, V>| f.ensures((m,), r),
    {
        let (mut map, handle) = self.inner.acquire_write();
        let r = f(&mut map);
        handle.release_write(map);
        r
    }
}

} // verus!
