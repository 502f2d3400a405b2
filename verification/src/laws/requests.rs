//! What each request asks for and where it goes, stated of the calls that make it.

use crate::cache_api::{LoadingCache, Request};
use crate::exchange::{Done, Meta, Optional, Presence, Reading, Value};
use crate::internal_cache::CacheAction;
use std::fmt::Debug;
use std::hash::Hash;
use vstd::prelude::*;

verus! {

/// A request whose end is read as a value asks for the value of the key, or for an update of it,
/// and to have a missing key loaded. It goes to the cache that it is made through.
pub proof fn law_requests_for_a_value<K, V, E, U, M, P>(
    cache: LoadingCache<K, V, E, U, M, P>,
    key: K,
    replace: U,
    change: M,
    r: Request<K, V, E, U, M, P, Value>,
) where K: Eq + Hash + Clone + Send, V: Clone + Send, E: Clone + Send + Debug
    ensures
        call_ensures(LoadingCache::<K, V, E, U, M, P>::get, (&cache, key), r) ==> {
            &&& r.message.action == CacheAction::<K, V, U, M, P>::Get(key)
            &&& r.to == cache.submits_to()
            &&& r.message.response.channel() == r.receiver.channel()
        },
        call_requires(LoadingCache::<K, V, E, U, M, P>::get, (&cache, key)),
        call_ensures(LoadingCache::<K, V, E, U, M, P>::update, (&cache, key, replace), r) ==> {
            &&& r.message.action == CacheAction::<K, V, U, M, P>::Update(key, replace, true)
            &&& r.to == cache.submits_to()
            &&& r.message.response.channel() == r.receiver.channel()
        },
        call_requires(LoadingCache::<K, V, E, U, M, P>::update, (&cache, key, replace)),
        call_ensures(LoadingCache::<K, V, E, U, M, P>::update_mut, (&cache, key, change), r) ==> {
            &&& r.message.action == CacheAction::<K, V, U, M, P>::UpdateMut(key, change, true)
            &&& r.to == cache.submits_to()
            &&& r.message.response.channel() == r.receiver.channel()
        },
        call_requires(LoadingCache::<K, V, E, U, M, P>::update_mut, (&cache, key, change)),
{
}

/// A request whose end is read as a value with where it came from asks for the value of the key,
/// and to have a missing key loaded. It goes to the cache that it is made through.
pub proof fn law_requests_for_a_value_with_meta<K, V, E, U, M, P>(
    cache: LoadingCache<K, V, E, U, M, P>,
    key: K,
    r: Request<K, V, E, U, M, P, Meta>,
) where K: Eq + Hash + Clone + Send, V: Clone + Send, E: Clone + Send + Debug
    ensures
        call_ensures(LoadingCache::<K, V, E, U, M, P>::get_with_meta, (&cache, key), r) ==> {
            &&& r.message.action == CacheAction::<K, V, U, M, P>::Get(key)
            &&& r.to == cache.submits_to()
            &&& r.message.response.channel() == r.receiver.channel()
        },
        call_requires(LoadingCache::<K, V, E, U, M, P>::get_with_meta, (&cache, key)),
{
}

/// A request whose end is read as a value that may be missing sets, looks up, removes or updates
/// the value of the key, and has nothing loaded. It goes to the cache that it is made through.
pub proof fn law_requests_for_a_value_if_any<K, V, E, U, M, P>(
    cache: LoadingCache<K, V, E, U, M, P>,
    key: K,
    value: V,
    replace: U,
    change: M,
    r: Request<K, V, E, U, M, P, Optional>,
) where K: Eq + Hash + Clone + Send, V: Clone + Send, E: Clone + Send + Debug
    ensures
        call_ensures(LoadingCache::<K, V, E, U, M, P>::set, (&cache, key, value), r) ==> {
            &&& r.message.action == CacheAction::<K, V, U, M, P>::Put(key, value)
            &&& r.to == cache.submits_to()
            &&& r.message.response.channel() == r.receiver.channel()
        },
        call_requires(LoadingCache::<K, V, E, U, M, P>::set, (&cache, key, value)),
        call_ensures(LoadingCache::<K, V, E, U, M, P>::get_if_present, (&cache, key), r) ==> {
            &&& r.message.action == CacheAction::<K, V, U, M, P>::GetIfPresent(key)
            &&& r.to == cache.submits_to()
            &&& r.message.response.channel() == r.receiver.channel()
        },
        call_requires(LoadingCache::<K, V, E, U, M, P>::get_if_present, (&cache, key)),
        call_ensures(LoadingCache::<K, V, E, U, M, P>::remove, (&cache, key), r) ==> {
            &&& r.message.action == CacheAction::<K, V, U, M, P>::Remove(key)
            &&& r.to == cache.submits_to()
            &&& r.message.response.channel() == r.receiver.channel()
        },
        call_requires(LoadingCache::<K, V, E, U, M, P>::remove, (&cache, key)),
        call_ensures(
            LoadingCache::<K, V, E, U, M, P>::update_if_exists,
            (&cache, key, replace),
            r,
        ) ==> {
            &&& r.message.action == CacheAction::<K, V, U, M, P>::Update(key, replace, false)
            &&& r.to == cache.submits_to()
            &&& r.message.response.channel() == r.receiver.channel()
        },
        call_requires(LoadingCache::<K, V, E, U, M, P>::update_if_exists, (&cache, key, replace)),
        call_ensures(
            LoadingCache::<K, V, E, U, M, P>::update_mut_if_exists,
            (&cache, key, change),
            r,
        ) ==> {
            &&& r.message.action == CacheAction::<K, V, U, M, P>::UpdateMut(key, change, false)
            &&& r.to == cache.submits_to()
            &&& r.message.response.channel() == r.receiver.channel()
        },
        call_requires(
            LoadingCache::<K, V, E, U, M, P>::update_mut_if_exists,
            (&cache, key, change),
        ),
{
}

/// A request whose end is read as presence looks the key up, and has nothing loaded. It goes to the
/// cache that it is made through.
pub proof fn law_requests_for_presence<K, V, E, U, M, P>(
    cache: LoadingCache<K, V, E, U, M, P>,
    key: K,
    r: Request<K, V, E, U, M, P, Presence>,
) where K: Eq + Hash + Clone + Send, V: Clone + Send, E: Clone + Send + Debug
    ensures
        call_ensures(LoadingCache::<K, V, E, U, M, P>::is_present, (&cache, key), r) ==> {
            &&& r.message.action == CacheAction::<K, V, U, M, P>::GetIfPresent(key)
            &&& r.to == cache.submits_to()
            &&& r.message.response.channel() == r.receiver.channel()
        },
        call_requires(LoadingCache::<K, V, E, U, M, P>::is_present, (&cache, key)),
{
}

/// A request of which only the success is read removes what a predicate accepts, or everything. It
/// goes to the cache that it is made through.
pub proof fn law_requests_to_remove_many<K, V, E, U, M, P>(
    cache: LoadingCache<K, V, E, U, M, P>,
    predicate: P,
    r: Request<K, V, E, U, M, P, Done>,
) where K: Eq + Hash + Clone + Send, V: Clone + Send, E: Clone + Send + Debug
    ensures
        call_ensures(LoadingCache::<K, V, E, U, M, P>::remove_if, (&cache, predicate), r) ==> {
            &&& r.message.action == CacheAction::<K, V, U, M, P>::RemoveIf(predicate)
            &&& r.to == cache.submits_to()
            &&& r.message.response.channel() == r.receiver.channel()
        },
        call_requires(LoadingCache::<K, V, E, U, M, P>::remove_if, (&cache, predicate)),
        call_ensures(LoadingCache::<K, V, E, U, M, P>::clear, (&cache,), r) ==> {
            &&& r.message.action == CacheAction::<K, V, U, M, P>::Clear()
            &&& r.to == cache.submits_to()
            &&& r.message.response.channel() == r.receiver.channel()
        },
        call_requires(LoadingCache::<K, V, E, U, M, P>::clear, (&cache,)),
{
}

/// A request for any action carries that action, waits at the other side of the channel on which it
/// is answered, and goes to the cache that it is made through. A clone of a handle is a handle on
/// the same cache.
pub proof fn law_requests_for_an_action<K, V, E, U, M, P, R: Reading<V, E>>(
    cache: LoadingCache<K, V, E, U, M, P>,
    clone: LoadingCache<K, V, E, U, M, P>,
    action: CacheAction<K, V, U, M, P>,
    r: Request<K, V, E, U, M, P, R>,
) where K: Eq + Hash + Clone + Send, V: Clone + Send, E: Clone + Send + Debug
    ensures
        call_ensures(
            LoadingCache::<K, V, E, U, M, P>::send_cache_action::<R>,
            (&cache, action),
            r,
        ) ==> {
            &&& r.message.action == action
            &&& r.to == cache.submits_to()
            &&& r.message.response.channel() == r.receiver.channel()
        },
        call_requires(LoadingCache::<K, V, E, U, M, P>::send_cache_action::<R>, (&cache, action)),
        call_ensures(<LoadingCache<K, V, E, U, M, P> as Clone>::clone, (&cache,), clone)
            ==> clone.submits_to() == cache.submits_to(),
{
}

} // verus!
