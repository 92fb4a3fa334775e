//! An asynchronous-shaped adapter: any synchronous map can be driven
//! through deferred values that resolve immediately.
//!
//! The adapter performs the underlying synchronous operation eagerly and
//! wraps the already-computed result in a deferred-value handle whose
//! poll immediately reports completion with that result. Nothing ever
//! suspends, so no cancellation is meaningful. Polling consumes the
//! deferred value, so each completed result is handed out exactly once
//! (the chosen answer to whether a deferred value may be polled again
//! after completion: it cannot, by construction).

use crate::map::GenericMap;
use crate::map::deref_opt;
use crate::map::map_get_spec;
use crate::map::map_insert_spec;
use vstd::prelude::*;

verus! {

/// The observable states of a deferred value: completed with a result,
/// or not yet complete. The adapters in this module only ever produce
/// `Ready`; `Pending` exists so that the type has the usual shape of a
/// polled deferred value.
pub enum Poll<T> {
    Ready(T),
    Pending,
}

/// A deferred map lookup. The lookup itself happens eagerly when the
/// deferred value is constructed; the handle then carries the borrowed
/// guard (scoped to the borrow of the map) until it is polled.
pub struct SyncGetFuture<'a, V> {
    result: Option<&'a V>,
}

impl<'a, V> SyncGetFuture<'a, V> {
    /// The completed result this deferred value resolves to.
    pub closed spec fn output(&self) -> Option<V> {
        deref_opt(self.result)
    }

    /// Performs the lookup eagerly and wraps its result; the wrapped
    /// result satisfies exactly the synchronous lookup contract.
    pub fn new<K, M: GenericMap<K, V>>(map: &'a M, key: &K) -> (r: Self)
        requires
            map.wf(),
        ensures
            map_get_spec(map.entries(), *key, r.output()),
    {
        SyncGetFuture { result: GenericMap::get(map, key) }
    }

    /// Resolves the deferred value: polling immediately reports
    /// completion with the eagerly computed result. Polling takes the
    /// deferred value, so it is consumed exactly once.
    pub fn poll(self) -> (r: Poll<Option<&'a V>>)
        ensures
            r matches Poll::Ready(out) && deref_opt(out) == self.output(),
    {
        Poll::Ready(self.result)
    }
}

/// A deferred map insertion. The insertion itself happens eagerly when
/// the deferred value is constructed; the handle then owns the displaced
/// prior value (if any) until it is polled.
pub struct SyncInsertFuture<V> {
    result: Option<V>,
}

impl<V> SyncInsertFuture<V> {
    /// The completed result this deferred value resolves to.
    pub closed spec fn output(&self) -> Option<V> {
        self.result
    }

    /// Performs the insertion eagerly and wraps its result; the map is
    /// updated and the wrapped result satisfies exactly the synchronous
    /// insertion contract.
    pub fn new<K, M: GenericMap<K, V>>(map: &mut M, key: K, value: V) -> (r: Self)
        requires
            old(map).wf(),
        ensures
            final(map).wf(),
            map_insert_spec(old(map).entries(), key, value, final(map).entries(), r.output()),
    {
        SyncInsertFuture { result: GenericMap::insert(map, key, value) }
    }

    /// Resolves the deferred value: polling immediately reports
    /// completion with the eagerly computed result. Polling takes the
    /// deferred value, so it is consumed exactly once.
    pub fn poll(self) -> (r: Poll<Option<V>>)
        ensures
            r matches Poll::Ready(out) && out == self.output(),
    {
        Poll::Ready(self.result)
    }
}

/// An asynchronous-shaped map capability: the same lookup and insertion
/// contracts as [`GenericMap`], but each call hands back a deferred
/// value instead of a direct result.
///
/// The blanket implementation below promotes every synchronous map to
/// this shape, so it is a drop-in stand-in for code structured around
/// deferred values that does not require genuine suspension.
pub trait AsyncMap<K, V>: GenericMap<K, V> {
    /// Like [`GenericMap::get`], through a deferred value.
    fn get_deferred<'a>(&'a self, k: &K) -> (r: SyncGetFuture<'a, V>)
        requires
            self.wf(),
        ensures
            map_get_spec(self.entries(), *k, r.output()),
    ;

    /// Like [`GenericMap::insert`], through a deferred value.
    fn insert_deferred(&mut self, k: K, v: V) -> (r: SyncInsertFuture<V>)
        requires
            old(self).wf(),
        ensures
            final(self).wf(),
            map_insert_spec(old(self).entries(), k, v, final(self).entries(), r.output()),
    ;
}

impl<K, V, M: GenericMap<K, V>> AsyncMap<K, V> for M {
    fn get_deferred<'a>(&'a self, k: &K) -> (r: SyncGetFuture<'a, V>) {
        SyncGetFuture::new(self, k)
    }

    fn insert_deferred(&mut self, k: K, v: V) -> (r: SyncInsertFuture<V>) {
        SyncInsertFuture::new(self, k, v)
    }
}

/// Law: asynchronous-adapter equivalence for lookups. A resolved
/// deferred lookup and a direct synchronous lookup on the same container
/// contents and key are constrained by the same contract predicate, and
/// that predicate pins the result: the two results are identical.
pub proof fn lemma_async_get_equivalence<K, V>(
    m: Map<K, V>,
    k: K,
    deferred: Option<V>,
    direct: Option<V>,
)
    requires
        map_get_spec(m, k, deferred),
        map_get_spec(m, k, direct),
    ensures
        deferred == direct,
{
}

/// Law: asynchronous-adapter equivalence for insertions. A resolved
/// deferred insertion and a direct synchronous insertion from the same
/// prior container contents are constrained by the same contract
/// predicate, and that predicate pins both the new contents and the
/// displaced value: the two outcomes are identical.
pub proof fn lemma_async_insert_equivalence<K, V>(
    pre: Map<K, V>,
    k: K,
    v: V,
    post_deferred: Map<K, V>,
    deferred: Option<V>,
    post_direct: Map<K, V>,
    direct: Option<V>,
)
    requires
        map_insert_spec(pre, k, v, post_deferred, deferred),
        map_insert_spec(pre, k, v, post_direct, direct),
    ensures
        post_deferred == post_direct,
        deferred == direct,
{
}

} // verus!
