//! What a backing does with its mappings, stated of the calls that use it.

use crate::backing::{CacheBacking, HashMapBacking};
use crate::cache_api::{CacheEntry, CacheTask, LoadingCache, QUEUE_CAPACITY};
use crate::internal_cache::InternalCacheStore;
use std::fmt::Debug;
use std::hash::Hash;
use vstd::prelude::*;
use vstd::std_specs::hash::obeys_key_model;

verus! {

/// A look at a backing finds the value of the key, and changes nothing.
pub proof fn law_backing_get<K, V, B>(
    backing: &mut B,
    key: K,
    r: Option<&V>,
) where
    K: Eq + Hash + Sized + Clone + Send,
    V: Sized + Clone + Send,
    B: CacheBacking<K, V>,

    requires
        old(backing).faithful(),
        call_ensures(<B as CacheBacking<K, V>>::get, (backing, &key), r),
    ensures
        final(backing).faithful(),
        final(backing).retains() == old(backing).retains(),
        final(backing).contents().submap_of(old(backing).contents()),
        old(backing).retains() ==> final(backing).contents() == old(backing).contents(),
        match r {
            Some(value) => final(backing).contents().get(key) == Some(*value)
                && old(backing).contents().get(key) == Some(*value),
            None => final(backing).contents().get(key) is None,
        },
{
}

/// What a backing is given for a key is what it then has for it, and what it had is handed out.
pub proof fn law_backing_set<K, V, B>(
    backing: &mut B,
    key: K,
    value: V,
    r: Option<V>,
) where
    K: Eq + Hash + Sized + Clone + Send,
    V: Sized + Clone + Send,
    B: CacheBacking<K, V>,

    requires
        old(backing).faithful(),
        call_ensures(<B as CacheBacking<K, V>>::set, (backing, key, value), r),
    ensures
        final(backing).faithful(),
        final(backing).retains() == old(backing).retains(),
        final(backing).contents().submap_of(old(backing).contents().insert(key, value)),
        old(backing).retains() ==> final(backing).contents() == old(backing).contents().insert(
            key,
            value,
        ),
        r is Some ==> old(backing).contents().get(key) == r,
        old(backing).retains() ==> old(backing).contents().get(key) == r,
{
}

/// A key that is removed from a backing is gone, the others stay, and what it had is handed out.
pub proof fn law_backing_remove<K, V, B>(
    backing: &mut B,
    key: K,
    r: Option<V>,
) where
    K: Eq + Hash + Sized + Clone + Send,
    V: Sized + Clone + Send,
    B: CacheBacking<K, V>,

    requires
        old(backing).faithful(),
        call_ensures(<B as CacheBacking<K, V>>::remove, (backing, &key), r),
    ensures
        final(backing).faithful(),
        final(backing).retains() == old(backing).retains(),
        final(backing).contents().get(key) is None,
        final(backing).contents().submap_of(old(backing).contents().remove(key)),
        old(backing).retains() ==> final(backing).contents() == old(backing).contents().remove(key),
        r is Some ==> old(backing).contents().get(key) == r,
        old(backing).retains() ==> old(backing).contents().get(key) == r,
{
}

/// A backing has a key exactly if it has a value for it.
pub proof fn law_backing_contains_key<K, V, B>(
    backing: B,
    key: K,
    r: bool,
) where
    K: Eq + Hash + Sized + Clone + Send,
    V: Sized + Clone + Send,
    B: CacheBacking<K, V>,

    requires
        backing.faithful(),
        call_ensures(<B as CacheBacking<K, V>>::contains_key, (&backing, &key), r),
    ensures
        r <==> backing.contents().get(key) is Some,
{
}

/// A backing that is cleared is empty.
pub proof fn law_backing_clear<K, V, B>(
    backing: &mut B,
) where
    K: Eq + Hash + Sized + Clone + Send,
    V: Sized + Clone + Send,
    B: CacheBacking<K, V>,

    requires
        old(backing).faithful(),
        call_ensures(<B as CacheBacking<K, V>>::clear, (backing,), ()),
    ensures
        final(backing).faithful(),
        final(backing).retains() == old(backing).retains(),
        final(backing).contents() == Map::<K, V>::empty(),
{
}

/// A backing removes by a predicate exactly what the predicate accepts, each mapping for itself.
pub proof fn law_backing_remove_if<K, V, B, P>(
    backing: &mut B,
    predicate: P,
    key: K,
) where
    K: Eq + Hash + Sized + Clone + Send,
    V: Sized + Clone + Send,
    B: CacheBacking<K, V>,
    P: Fn((&K, &V)) -> bool,

    requires
        old(backing).faithful(),
        call_ensures(<B as CacheBacking<K, V>>::remove_if::<P>, (backing, predicate), ()),
    ensures
        final(backing).faithful(),
        final(backing).retains() == old(backing).retains(),
        final(backing).contents().submap_of(old(backing).contents()),
        final(backing).contents().contains_key(key) ==> call_ensures(
            predicate,
            ((&key, &old(backing).contents()[key]),),
            false,
        ),
        old(backing).retains() && old(backing).contents().contains_key(key)
            && !final(backing).contents().contains_key(key) ==> call_ensures(
            predicate,
            ((&key, &old(backing).contents()[key]),),
            true,
        ),
{
}

/// A backing can be asked for anything at any time, and can be given a predicate that can be asked
/// about each of its mappings.
pub proof fn law_backing_can_be_used<K, V, B, P>(
    backing: &mut B,
    key: K,
    value: V,
    predicate: P,
) where
    K: Eq + Hash + Sized + Clone + Send,
    V: Sized + Clone + Send,
    B: CacheBacking<K, V>,
    P: Fn((&K, &V)) -> bool,

    requires
        old(backing).faithful(),
        forall|held: K| #[trigger]
            old(backing).contents().contains_key(held) ==> call_requires(
                predicate,
                ((&held, &old(backing).contents()[held]),),
            ),
    ensures
        call_requires(<B as CacheBacking<K, V>>::get, (backing, &key)),
        call_requires(<B as CacheBacking<K, V>>::set, (backing, key, value)),
        call_requires(<B as CacheBacking<K, V>>::remove, (backing, &key)),
        call_requires(<B as CacheBacking<K, V>>::clear, (backing,)),
        call_requires(<B as CacheBacking<K, V>>::remove_if::<P>, (backing, predicate)),
{
}

/// The default backing starts empty, keeps what it is given until that is removed, and can be
/// relied on for all keys that a hash map tells apart as equality does.
pub proof fn law_default_backing_starts_empty<K, V>(r: HashMapBacking<K, V>) where
    K: Eq + Hash + Sized + Clone + Send,
    V: Sized + Clone + Send,

    requires
        call_ensures(HashMapBacking::<K, V>::new, (), r),
    ensures
        r.contents() == Map::<K, V>::empty(),
        r.retains(),
        obeys_key_model::<K>() ==> r.faithful(),
{
}

/// A store, and a cache with it, starts with the mappings of its backing as entries, keeps them as
/// long as the backing does, and can be relied on where the backing can.
pub proof fn law_cache_starts_with_its_backing<K, V, E, U, M, P, B>(
    backing: B,
    store: InternalCacheStore<K, V, E, B>,
    cache: LoadingCache<K, V, E, U, M, P>,
    task: CacheTask<K, V, E, U, M, P, B>,
) where
    K: Eq + Hash + Clone + Send,
    V: Clone + Send,
    E: Clone + Send + Debug,
    B: CacheBacking<K, CacheEntry<V, E>>,

    ensures
        call_ensures(InternalCacheStore::<K, V, E, B>::new, (backing,), store) ==> {
            &&& store@ == backing.contents()
            &&& store.retains() == backing.retains()
            &&& store.faithful() == backing.faithful()
        },
        call_ensures(
            LoadingCache::<K, V, E, U, M, P>::with_backing::<B>,
            (backing,),
            (cache, task),
        ) ==> {
            &&& task.store@ == backing.contents()
            &&& task.store.retains() == backing.retains()
            &&& task.store.faithful() == backing.faithful()
            &&& cache.submits_to().queue() == task.queue.queue()
            &&& cache.submits_to().bound() == QUEUE_CAPACITY
        },
        call_requires(InternalCacheStore::<K, V, E, B>::new, (backing,)),
        call_requires(LoadingCache::<K, V, E, U, M, P>::with_backing::<B>, (backing,)),
{
}

/// A cache that is created without a backing starts empty, keeps its entries until they are
/// removed, and can be relied on for all keys that a hash map tells apart as equality does.
pub proof fn law_new_cache_is_empty<K, V, E, U, M, P>(
    cache: LoadingCache<K, V, E, U, M, P>,
    task: CacheTask<K, V, E, U, M, P, HashMapBacking<K, CacheEntry<V, E>>>,
) where K: Eq + Hash + Clone + Send, V: Clone + Send, E: Clone + Send + Debug
    requires
        call_ensures(LoadingCache::<K, V, E, U, M, P>::new, (), (cache, task)),
    ensures
        task.store@ == Map::<K, CacheEntry<V, E>>::empty(),
        task.store.retains(),
        obeys_key_model::<K>() ==> task.store.faithful(),
        cache.submits_to().queue() == task.queue.queue(),
        cache.submits_to().bound() == QUEUE_CAPACITY,
        QUEUE_CAPACITY == 128,
{
}

} // verus!
