//! A generic set capability interface, with adapters for the standard
//! hash-backed and ordered-tree-backed containers, and a decorator that
//! tracks the most recently inserted value.

use std::collections::BTreeSet;
use std::collections::HashSet;
use std::hash::BuildHasher;
use std::hash::Hash;
use vstd::prelude::*;

verus! {

broadcast use
    vstd::std_specs::hash::group_hash_axioms,
    vstd::std_specs::btree::group_btree_axioms,
;

/// What an insert into a set does: the set afterwards contains the
/// value and is otherwise unchanged, and the call reports `true`
/// exactly when the value was newly inserted.
pub open spec fn set_insert_spec<T>(pre: Set<T>, v: T, post: Set<T>, r: bool) -> bool {
    &&& post == pre.insert(v)
    &&& r == !pre.contains(v)
}

/// A generic set capability: any container that can test an owned value
/// for membership and insert an owned value, reporting whether it was
/// new.
pub trait GenericSet<T>: Sized {
    /// The mathematical contents of the container: a finite set of
    /// values. Equal values are the same member; order is irrelevant.
    spec fn elems(&self) -> Set<T>;

    /// The comparison discipline the container needs of its value
    /// type: a hash-backed container needs values that hash
    /// consistently with equality, an ordered container needs a
    /// consistent total order.
    spec fn wf(&self) -> bool;

    /// Tests whether a value equal to `*value` is a member.
    fn contains(&self, value: &T) -> (r: bool)
        requires
            self.wf(),
        ensures
            r == self.elems().contains(*value),
    ;

    /// Inserts an owned value, returning `true` iff it was not already
    /// a member.
    fn insert(&mut self, value: T) -> (r: bool)
        requires
            old(self).wf(),
        ensures
            final(self).wf(),
            set_insert_spec(old(self).elems(), value, final(self).elems(), r),
    ;
}

impl<T: Hash + Eq, S: BuildHasher> GenericSet<T> for HashSet<T, S> {
    open spec fn elems(&self) -> Set<T> {
        self@
    }

    open spec fn wf(&self) -> bool {
        &&& vstd::std_specs::hash::obeys_key_model::<T>()
        &&& vstd::std_specs::hash::builds_valid_hashers::<S>()
    }

    fn contains(&self, value: &T) -> (r: bool) {
        HashSet::contains(self, value)
    }

    fn insert(&mut self, value: T) -> (r: bool) {
        HashSet::insert(self, value)
    }
}

/// A decorator container: wraps any conforming set and additionally
/// keeps a shadow copy of the most recently inserted value.
///
/// There is no empty state: construction requires an initial value,
/// which seeds both the wrapped container and the shadow copy. Because
/// the decorator itself satisfies [`GenericSet`], decorators nest
/// arbitrarily.
pub struct LastInsertSet<T, S> {
    inner_set: S,
    last_value: T,
}

impl<T: Copy, S: GenericSet<T>> LastInsertSet<T, S> {
    /// The shadow copy: the most recently inserted value.
    pub closed spec fn last_insert(&self) -> T {
        self.last_value
    }

    /// Wraps a set, seeding it (and the shadow copy) with an initial
    /// mandatory value, so that "no value yet" is not representable.
    pub fn new(set: S, value: T) -> (r: Self)
        requires
            set.wf(),
        ensures
            r.wf(),
            r.elems() == set.elems().insert(value),
            r.last_insert() == value,
    {
        let mut set = set;
        let _ = set.insert(value);
        LastInsertSet { inner_set: set, last_value: value }
    }

    /// Reads the shadow copy without touching the wrapped container.
    pub fn get_last_insert(&self) -> (r: &T)
        ensures
            *r == self.last_insert(),
    {
        &self.last_value
    }
}

impl<T: Copy, S: GenericSet<T>> GenericSet<T> for LastInsertSet<T, S> {
    /// The decorator's members are exactly the wrapped container's:
    /// `contains` is a pure pass-through.
    closed spec fn elems(&self) -> Set<T> {
        self.inner_set.elems()
    }

    closed spec fn wf(&self) -> bool {
        self.inner_set.wf()
    }

    fn contains(&self, value: &T) -> (r: bool) {
        self.inner_set.contains(value)
    }

    fn insert(&mut self, value: T) -> (r: bool)
        ensures
            final(self).last_insert() == value,
    {
        self.last_value = value;
        self.inner_set.insert(value)
    }
}

impl<T: Ord> GenericSet<T> for BTreeSet<T> {
    open spec fn elems(&self) -> Set<T> {
        self@
    }

    open spec fn wf(&self) -> bool {
        vstd::laws_cmp::obeys_cmp::<T>()
    }

    fn contains(&self, value: &T) -> (r: bool) {
        BTreeSet::contains(self, value)
    }

    fn insert(&mut self, value: T) -> (r: bool) {
        BTreeSet::insert(self, value)
    }
}

/// Heterogeneous membership test on a hash-backed container whose owned
/// values are boxes: the query is the borrowed form `&Q` of the owned
/// value type `Box<Q>`, and the result is exactly what testing the owned
/// value returns.
pub fn hash_set_contains_boxed<Q: Hash + Eq>(s: &HashSet<Box<Q>>, q: &Q) -> (r: bool)
    requires
        s.wf(),
    ensures
        r == s@.contains(Box::new(*q)),
{
    s.contains(q)
}

/// Heterogeneous membership test on an ordered-tree-backed container
/// whose owned values are boxes: the query is the borrowed form `&Q` of
/// the owned value type `Box<Q>`, and the result is exactly what testing
/// the owned value returns.
pub fn btree_set_contains_boxed<Q: Ord>(s: &BTreeSet<Box<Q>>, q: &Q) -> (r: bool)
    requires
        s.wf(),
    ensures
        r == s@.contains(Box::new(*q)),
{
    s.contains(q)
}

/// Law: inserting a previously absent value reports it as new, and the
/// value is a member afterwards.
pub proof fn lemma_set_insert_new_value<T>(pre: Set<T>, x: T, post: Set<T>, r: bool)
    requires
        !pre.contains(x),
        set_insert_spec(pre, x, post, r),
    ensures
        r,
        post.contains(x),
{
}

/// Law: re-inserting a value already present reports it as not new and
/// leaves the set's members unchanged (in particular, membership of the
/// value is unaffected).
pub proof fn lemma_set_reinsert_value<T>(pre: Set<T>, x: T, post: Set<T>, r: bool)
    requires
        pre.contains(x),
        set_insert_spec(pre, x, post, r),
    ensures
        !r,
        post == pre,
        post.contains(x),
{
    assert(post =~= pre);
}

} // verus!
