//! A generic map capability interface, with adapters for the standard
//! hash-backed and ordered-tree-backed containers.

use std::collections::BTreeMap;
use std::collections::HashMap;
use std::hash::BuildHasher;
use std::hash::Hash;
use vstd::prelude::*;

verus! {

broadcast use
    vstd::std_specs::hash::group_hash_axioms,
    vstd::std_specs::btree::group_btree_axioms,
;

/// What a lookup returns, over the mathematical model of the container:
/// `Some(v)` exactly when the key is present and mapped to `v`, `None`
/// exactly when the key is absent.
pub open spec fn map_get_spec<K, V>(m: Map<K, V>, k: K, r: Option<V>) -> bool {
    match r {
        Some(v) => m.contains_key(k) && v == m[k],
        None => !m.contains_key(k),
    }
}

/// What an insert does: the container afterwards maps `k` to `v` and is
/// otherwise unchanged, and the returned value is the displaced prior
/// value exactly when the key was already present.
pub open spec fn map_insert_spec<K, V>(
    pre: Map<K, V>,
    k: K,
    v: V,
    post: Map<K, V>,
    r: Option<V>,
) -> bool {
    &&& post == pre.insert(k, v)
    &&& match r {
        Some(prev) => pre.contains_key(k) && prev == pre[k],
        None => !pre.contains_key(k),
    }
}

/// Strips the reference off a borrowed-guard lookup result so that it
/// can be compared against the container's mathematical model.
pub open spec fn deref_opt<V>(r: Option<&V>) -> Option<V> {
    match r {
        Some(v) => Some(*v),
        None => None,
    }
}

/// A generic map capability: any container that can look a value up by
/// key and insert an owned key/value pair, displacing the prior value.
///
/// The borrowed-guard access pattern of `get` hands back a read-only
/// handle (`&V`) scoped to the immutable borrow of the container, so a
/// caller can read a stored value without copying it, and no mutation
/// can happen while such a guard is alive.
pub trait GenericMap<K, V>: Sized {
    /// The mathematical contents of the container: a finite map from
    /// keys to values. Equal keys are the same entry; order is
    /// irrelevant.
    spec fn entries(&self) -> Map<K, V>;

    /// The comparison discipline the container needs of its key type:
    /// a hash-backed container needs keys that hash consistently with
    /// equality, an ordered container needs a consistent total order.
    spec fn wf(&self) -> bool;

    /// Looks up the entry stored under a key equal to `*k`, returning a
    /// borrowed guard on its value, or `None` if the key is absent.
    fn get<'a>(&'a self, k: &K) -> (r: Option<&'a V>)
        requires
            self.wf(),
        ensures
            map_get_spec(self.entries(), *k, deref_opt(r)),
    ;

    /// Inserts an owned key/value pair, replacing any existing value
    /// under an equal key and handing the displaced value back.
    fn insert(&mut self, k: K, v: V) -> (r: Option<V>)
        requires
            old(self).wf(),
        ensures
            final(self).wf(),
            map_insert_spec(old(self).entries(), k, v, final(self).entries(), r),
    ;
}

impl<K: Hash + Eq, V, S: BuildHasher> GenericMap<K, V> for HashMap<K, V, S> {
    open spec fn entries(&self) -> Map<K, V> {
        self@
    }

    open spec fn wf(&self) -> bool {
        &&& vstd::std_specs::hash::obeys_key_model::<K>()
        &&& vstd::std_specs::hash::builds_valid_hashers::<S>()
    }

    fn get<'a>(&'a self, k: &K) -> (r: Option<&'a V>) {
        HashMap::get(self, k)
    }

    fn insert(&mut self, k: K, v: V) -> (r: Option<V>) {
        HashMap::insert(self, k, v)
    }
}

/// A decorator container: wraps any conforming map and additionally
/// keeps a shadow copy of the most recently inserted key/value pair.
///
/// There is no empty state: construction requires an initial entry,
/// which seeds both the wrapped container and the shadow copy. Because
/// the decorator itself satisfies [`GenericMap`], decorators nest
/// arbitrarily.
pub struct LastInsertMap<M, K, V> {
    inner_map: M,
    last_key: K,
    last_value: V,
}

impl<K: Copy, V: Copy, M: GenericMap<K, V>> LastInsertMap<M, K, V> {
    /// The shadow copy: the most recently inserted key/value pair.
    pub closed spec fn last_entry(&self) -> (K, V) {
        (self.last_key, self.last_value)
    }

    /// Wraps a map, seeding it (and the shadow copy) with an initial
    /// mandatory entry, so that "no entry yet" is not representable.
    pub fn new(map: M, key: K, value: V) -> (r: Self)
        requires
            map.wf(),
        ensures
            r.wf(),
            r.entries() == map.entries().insert(key, value),
            r.last_entry() == (key, value),
    {
        let mut map = map;
        let _ = map.insert(key, value);
        LastInsertMap { inner_map: map, last_key: key, last_value: value }
    }

    /// Reads the shadow copy without touching the wrapped container.
    pub fn get_last_insert(&self) -> (r: (&K, &V))
        ensures
            (*r.0, *r.1) == self.last_entry(),
    {
        (&self.last_key, &self.last_value)
    }
}

impl<K: Copy, V: Copy, M: GenericMap<K, V>> GenericMap<K, V> for LastInsertMap<M, K, V> {
    /// The decorator's contents are exactly the wrapped container's:
    /// `get` is a pure pass-through.
    closed spec fn entries(&self) -> Map<K, V> {
        self.inner_map.entries()
    }

    closed spec fn wf(&self) -> bool {
        self.inner_map.wf()
    }

    fn get<'a>(&'a self, k: &K) -> (r: Option<&'a V>) {
        self.inner_map.get(k)
    }

    fn insert(&mut self, k: K, v: V) -> (r: Option<V>)
        ensures
            final(self).last_entry() == (k, v),
    {
        self.last_key = k;
        self.last_value = v;
        self.inner_map.insert(k, v)
    }
}

impl<K: Ord, V> GenericMap<K, V> for BTreeMap<K, V> {
    open spec fn entries(&self) -> Map<K, V> {
        self@
    }

    open spec fn wf(&self) -> bool {
        vstd::laws_cmp::obeys_cmp::<K>()
    }

    fn get<'a>(&'a self, k: &K) -> (r: Option<&'a V>) {
        BTreeMap::get(self, k)
    }

    fn insert(&mut self, k: K, v: V) -> (r: Option<V>) {
        BTreeMap::insert(self, k, v)
    }
}

/// Heterogeneous lookup into a hash-backed container whose owned keys
/// are boxes: the query is the borrowed form `&Q` of the owned key type
/// `Box<Q>`, and the contract is exactly the owned-key lookup contract,
/// so the call returns the same result as a lookup with the owned key.
pub fn hash_map_get_boxed<'a, Q: Hash + Eq, V>(m: &'a HashMap<Box<Q>, V>, q: &Q) -> (r: Option<
    &'a V,
>)
    requires
        m.wf(),
    ensures
        map_get_spec(m@, Box::new(*q), deref_opt(r)),
{
    m.get(q)
}

/// Heterogeneous lookup into an ordered-tree-backed container whose
/// owned keys are boxes: the query is the borrowed form `&Q` of the
/// owned key type `Box<Q>`, and the contract is exactly the owned-key
/// lookup contract, so the call returns the same result as a lookup with
/// the owned key.
pub fn btree_map_get_boxed<'a, Q: Ord, V>(m: &'a BTreeMap<Box<Q>, V>, q: &Q) -> (r: Option<&'a V>)
    requires
        m.wf(),
    ensures
        map_get_spec(m@, Box::new(*q), deref_opt(r)),
{
    m.get(q)
}

/// Law: a heterogeneous lookup agrees with the owned-key lookup. Both
/// are constrained by the same contract predicate over the same
/// container contents and owned key, and that predicate pins the
/// result, so the two results are equal.
pub proof fn lemma_borrowed_query_agrees_with_owned<K, V>(
    m: Map<K, V>,
    k: K,
    borrowed: Option<V>,
    owned: Option<V>,
)
    requires
        map_get_spec(m, k, borrowed),
        map_get_spec(m, k, owned),
    ensures
        borrowed == owned,
{
}

/// Law: inserting under a previously absent key returns `None`, and a
/// subsequent lookup of that key yields a guard on the value just
/// inserted.
pub proof fn lemma_insert_then_get_new_key<K, V>(
    pre: Map<K, V>,
    k: K,
    v: V,
    post: Map<K, V>,
    ins: Option<V>,
    got: Option<V>,
)
    requires
        !pre.contains_key(k),
        map_insert_spec(pre, k, v, post, ins),
        map_get_spec(post, k, got),
    ensures
        ins is None,
        got == Some(v),
{
}

/// Law: inserting under a key already mapped to `v1` returns exactly
/// `Some(v1)` (the displaced value, handed back once), and a subsequent
/// lookup of that key yields a guard on the new value (last write wins).
pub proof fn lemma_insert_then_get_existing_key<K, V>(
    pre: Map<K, V>,
    k: K,
    v1: V,
    v2: V,
    post: Map<K, V>,
    ins: Option<V>,
    got: Option<V>,
)
    requires
        pre.contains_key(k),
        pre[k] == v1,
        map_insert_spec(pre, k, v2, post, ins),
        map_get_spec(post, k, got),
    ensures
        ins == Some(v1),
        got == Some(v2),
{
}

} // verus!
