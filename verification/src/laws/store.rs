//! What each action does, stated of the calls that perform it.
//!
//! The statements speak of the entries before and after a call, of its outcome, and of the
//! functions that the caller passed along, and of nothing else. Where entries can be evicted, what
//! is left is part of what would be there otherwise.

use crate::backing::CacheBacking;
use crate::cache_api::{CacheEntry, CacheResult};
use crate::internal_cache::{CacheAction, Deferred, InternalCacheStore, Outcome};
use std::fmt::Debug;
use std::hash::Hash;
use vstd::prelude::*;

verus! {

/// `get` answers from the entry of the key. A value is handed out and stays where it is, a load
/// that is under way is joined and goes on as it was, and only a missing key is loaded.
pub proof fn law_get<K, V, E, B, U, M, P, W>(
    store: &mut InternalCacheStore<K, V, E, B>,
    key: K,
    open: W,
    r: Outcome<K, V, E, U, M>,
) where
    K: Eq + Hash + Clone + Send,
    V: Clone + Send,
    E: Clone + Send + Debug,
    B: CacheBacking<K, CacheEntry<V, E>>,
    U: FnOnce(V) -> V,
    M: FnOnce(&mut V),
    P: Fn((&K, Option<&V>)) -> bool,
    W: FnOnce() -> tokio::sync::broadcast::Sender<Result<V, E>>,

    requires
        old(store).faithful(),
        call_ensures(InternalCacheStore::<K, V, E, B>::get::<U, M, W>, (store, key, open), r)
            || call_ensures(
                InternalCacheStore::<K, V, E, B>::perform::<U, M, P, W>,
                (store, CacheAction::<K, V, U, M, P>::Get(key), open),
                r,
            ),
    ensures
        final(store).faithful(),
        final(store).retains() == old(store).retains(),
        old(store)@.get(key) is None ==> r is Load,
        r !is Load ==> final(store)@.submap_of(old(store)@) && final(store)@.get(key)
            == old(store)@.get(key),
        r !is Load && old(store).retains() ==> final(store)@ == old(store)@,
        r is Respond ==> {
            &&& old(store)@.get(key) matches Some(CacheEntry::Loaded(value))
            &&& r->Respond_0 matches CacheResult::Found(copy)
            &&& cloned(value, copy)
        },
        r is Join ==> old(store)@.get(key) == Some(CacheEntry::<V, E>::Loading(r->Join_waiter))
            && r->Join_key == key && r->Join_deferred is None,
        r is Load ==> {
            &&& cloned(key, r->Load_key)
            &&& r->Load_deferred is None
            &&& final(store)@.submap_of(
                old(store)@.insert(key, CacheEntry::Loading(r->Load_waiter)),
            )
        },
        r is Load && old(store).retains() ==> old(store)@.get(key) is None && final(store)@
            == old(store)@.insert(key, CacheEntry::Loading(r->Load_waiter)),
{
}

/// `get_if_present` finds the value of the key and nothing else. It changes no entry.
pub proof fn law_get_if_present<K, V, E, B, U, M, P, W>(
    store: &mut InternalCacheStore<K, V, E, B>,
    key: K,
    open: W,
    answer: CacheResult<V, E>,
) where
    K: Eq + Hash + Clone + Send,
    V: Clone + Send,
    E: Clone + Send + Debug,
    B: CacheBacking<K, CacheEntry<V, E>>,
    U: FnOnce(V) -> V,
    M: FnOnce(&mut V),
    P: Fn((&K, Option<&V>)) -> bool,
    W: FnOnce() -> tokio::sync::broadcast::Sender<Result<V, E>>,

    requires
        old(store).faithful(),
        call_ensures(InternalCacheStore::<K, V, E, B>::get_if_present, (store, key), answer)
            || call_ensures(
                InternalCacheStore::<K, V, E, B>::perform::<U, M, P, W>,
                (store, CacheAction::<K, V, U, M, P>::GetIfPresent(key), open),
                Outcome::Respond(answer),
            ),
    ensures
        final(store).faithful(),
        final(store).retains() == old(store).retains(),
        final(store)@.submap_of(old(store)@),
        old(store).retains() ==> final(store)@ == old(store)@,
        match answer {
            CacheResult::Found(copy) => final(store)@.get(key) == old(store)@.get(key) && (
            old(store)@.get(key) matches Some(CacheEntry::Loaded(value)) && cloned(value, copy)),
            CacheResult::Nothing => !(final(store)@.get(key) matches Some(CacheEntry::Loaded(_))),
            CacheResult::Loading(_) => false,
        },
{
}

/// `set` gives the key the value, whatever the key had, and hands out the value that it had.
pub proof fn law_set<K, V, E, B, U, M, P, W>(
    store: &mut InternalCacheStore<K, V, E, B>,
    key: K,
    value: V,
    open: W,
    answer: CacheResult<V, E>,
) where
    K: Eq + Hash + Clone + Send,
    V: Clone + Send,
    E: Clone + Send + Debug,
    B: CacheBacking<K, CacheEntry<V, E>>,
    U: FnOnce(V) -> V,
    M: FnOnce(&mut V),
    P: Fn((&K, Option<&V>)) -> bool,
    W: FnOnce() -> tokio::sync::broadcast::Sender<Result<V, E>>,

    requires
        old(store).faithful(),
        call_ensures(InternalCacheStore::<K, V, E, B>::set, (store, key, value), answer)
            || call_ensures(
                InternalCacheStore::<K, V, E, B>::perform::<U, M, P, W>,
                (store, CacheAction::<K, V, U, M, P>::Put(key, value), open),
                Outcome::Respond(answer),
            ),
    ensures
        final(store).faithful(),
        final(store).retains() == old(store).retains(),
        final(store)@.submap_of(old(store)@.insert(key, CacheEntry::Loaded(value))),
        old(store).retains() ==> final(store)@ == old(store)@.insert(
            key,
            CacheEntry::Loaded(value),
        ),
        match old(store)@.get(key) {
            Some(CacheEntry::Loaded(previous)) => answer == CacheResult::<V, E>::Found(previous)
                || !old(store).retains() && answer == CacheResult::<V, E>::Nothing,
            _ => answer == CacheResult::<V, E>::Nothing,
        },
{
}

/// `remove` leaves no entry for the key, be it a value or a load, and hands out the value that it
/// had. The other entries stay.
pub proof fn law_remove<K, V, E, B, U, M, P, W>(
    store: &mut InternalCacheStore<K, V, E, B>,
    key: K,
    open: W,
    answer: CacheResult<V, E>,
) where
    K: Eq + Hash + Clone + Send,
    V: Clone + Send,
    E: Clone + Send + Debug,
    B: CacheBacking<K, CacheEntry<V, E>>,
    U: FnOnce(V) -> V,
    M: FnOnce(&mut V),
    P: Fn((&K, Option<&V>)) -> bool,
    W: FnOnce() -> tokio::sync::broadcast::Sender<Result<V, E>>,

    requires
        old(store).faithful(),
        call_ensures(InternalCacheStore::<K, V, E, B>::remove, (store, key), answer)
            || call_ensures(
                InternalCacheStore::<K, V, E, B>::perform::<U, M, P, W>,
                (store, CacheAction::<K, V, U, M, P>::Remove(key), open),
                Outcome::Respond(answer),
            ),
    ensures
        final(store).faithful(),
        final(store).retains() == old(store).retains(),
        final(store)@.get(key) is None,
        final(store)@.submap_of(old(store)@.remove(key)),
        old(store).retains() ==> final(store)@ == old(store)@.remove(key),
        match old(store)@.get(key) {
            Some(CacheEntry::Loaded(previous)) => answer == CacheResult::<V, E>::Found(previous)
                || !old(store).retains() && answer == CacheResult::<V, E>::Nothing,
            _ => answer == CacheResult::<V, E>::Nothing,
        },
{
}

/// `clear` leaves no entry at all.
pub proof fn law_clear<K, V, E, B, U, M, P, W>(
    store: &mut InternalCacheStore<K, V, E, B>,
    open: W,
    answer: CacheResult<V, E>,
) where
    K: Eq + Hash + Clone + Send,
    V: Clone + Send,
    E: Clone + Send + Debug,
    B: CacheBacking<K, CacheEntry<V, E>>,
    U: FnOnce(V) -> V,
    M: FnOnce(&mut V),
    P: Fn((&K, Option<&V>)) -> bool,
    W: FnOnce() -> tokio::sync::broadcast::Sender<Result<V, E>>,

    requires
        old(store).faithful(),
        call_ensures(InternalCacheStore::<K, V, E, B>::clear, (store,), answer)
            || call_ensures(
                InternalCacheStore::<K, V, E, B>::perform::<U, M, P, W>,
                (store, CacheAction::<K, V, U, M, P>::Clear(), open),
                Outcome::Respond(answer),
            ),
    ensures
        final(store).faithful(),
        final(store).retains() == old(store).retains(),
        final(store)@ == Map::<K, CacheEntry<V, E>>::empty(),
        answer == CacheResult::<V, E>::Nothing,
{
}

/// The end of a load with a value gives the key that value if it is still being loaded, and changes
/// no entry otherwise.
pub proof fn law_set_and_unblock<K, V, E, B, U, M, P, W>(
    store: &mut InternalCacheStore<K, V, E, B>,
    key: K,
    value: V,
    open: W,
    answer: CacheResult<V, E>,
) where
    K: Eq + Hash + Clone + Send,
    V: Clone + Send,
    E: Clone + Send + Debug,
    B: CacheBacking<K, CacheEntry<V, E>>,
    U: FnOnce(V) -> V,
    M: FnOnce(&mut V),
    P: Fn((&K, Option<&V>)) -> bool,
    W: FnOnce() -> tokio::sync::broadcast::Sender<Result<V, E>>,

    requires
        old(store).faithful(),
        call_ensures(InternalCacheStore::<K, V, E, B>::set_and_unblock, (store, key, value), answer)
            || call_ensures(
                InternalCacheStore::<K, V, E, B>::perform::<U, M, P, W>,
                (store, CacheAction::<K, V, U, M, P>::SetAndUnblock(key, value), open),
                Outcome::Respond(answer),
            ),
    ensures
        final(store).faithful(),
        final(store).retains() == old(store).retains(),
        answer == CacheResult::<V, E>::Nothing,
        match old(store)@.get(key) {
            Some(CacheEntry::Loading(_)) => {
                &&& final(store)@.submap_of(old(store)@.insert(key, CacheEntry::Loaded(value)))
                &&& old(store).retains() ==> final(store)@ == old(store)@.insert(
                    key,
                    CacheEntry::Loaded(value),
                )
            },
            _ => {
                &&& final(store)@.submap_of(old(store)@)
                &&& old(store).retains() ==> final(store)@ == old(store)@
            },
        },
{
}

/// The end of a load with an error frees the key if it is still being loaded, and changes no entry
/// otherwise.
pub proof fn law_unblock<K, V, E, B, U, M, P, W>(
    store: &mut InternalCacheStore<K, V, E, B>,
    key: K,
    open: W,
    answer: CacheResult<V, E>,
) where
    K: Eq + Hash + Clone + Send,
    V: Clone + Send,
    E: Clone + Send + Debug,
    B: CacheBacking<K, CacheEntry<V, E>>,
    U: FnOnce(V) -> V,
    M: FnOnce(&mut V),
    P: Fn((&K, Option<&V>)) -> bool,
    W: FnOnce() -> tokio::sync::broadcast::Sender<Result<V, E>>,

    requires
        old(store).faithful(),
        call_ensures(InternalCacheStore::<K, V, E, B>::unblock, (store, key), answer)
            || call_ensures(
                InternalCacheStore::<K, V, E, B>::perform::<U, M, P, W>,
                (store, CacheAction::<K, V, U, M, P>::Unblock(key), open),
                Outcome::Respond(answer),
            ),
    ensures
        final(store).faithful(),
        final(store).retains() == old(store).retains(),
        answer == CacheResult::<V, E>::Nothing,
        match old(store)@.get(key) {
            Some(CacheEntry::Loading(_)) => {
                &&& final(store)@.submap_of(old(store)@.remove(key))
                &&& old(store).retains() ==> final(store)@ == old(store)@.remove(key)
            },
            _ => {
                &&& final(store)@.submap_of(old(store)@)
                &&& old(store).retains() ==> final(store)@ == old(store)@
            },
        },
{
}

/// An update hands the function the value of the key and answers with what it returned, which the
/// key keeps. Without a value, it waits for a load if it may load, has a missing key loaded if it
/// may, and is ignored otherwise.
pub proof fn law_update<K, V, E, B, U, M, P, W>(
    store: &mut InternalCacheStore<K, V, E, B>,
    key: K,
    update_fn: U,
    load: bool,
    open: W,
    r: Outcome<K, V, E, U, M>,
) where
    K: Eq + Hash + Clone + Send,
    V: Clone + Send,
    E: Clone + Send + Debug,
    B: CacheBacking<K, CacheEntry<V, E>>,
    U: FnOnce(V) -> V,
    M: FnOnce(&mut V),
    P: Fn((&K, Option<&V>)) -> bool,
    W: FnOnce() -> tokio::sync::broadcast::Sender<Result<V, E>>,

    requires
        old(store).faithful(),
        call_ensures(
            InternalCacheStore::<K, V, E, B>::update::<U, M, W>,
            (store, key, update_fn, load, open),
            r,
        )
            || call_ensures(
                InternalCacheStore::<K, V, E, B>::perform::<U, M, P, W>,
                (store, CacheAction::<K, V, U, M, P>::Update(key, update_fn, load), open),
                r,
            ),
    ensures
        final(store).faithful(),
        final(store).retains() == old(store).retains(),
        r matches Outcome::Respond(CacheResult::Found(updated)) ==> {
            &&& old(store)@.get(key) matches Some(CacheEntry::Loaded(_))
            &&& exists|copy: V| #[trigger]
                cloned(old(store)@[key]->Loaded_0, copy) && call_ensures(
                    update_fn,
                    (copy,),
                    updated,
                )
            &&& exists|kept: V| #[trigger]
                cloned(updated, kept) && final(store)@.submap_of(
                    old(store)@.insert(key, CacheEntry::Loaded(kept)),
                ) && (old(store).retains() ==> final(store)@ == old(store)@.insert(
                    key,
                    CacheEntry::Loaded(kept),
                ))
        },
        r is Respond && r->Respond_0 !is Found ==> {
            &&& r->Respond_0 == CacheResult::<V, E>::Nothing
            &&& !load
            &&& final(store)@.submap_of(old(store)@)
            &&& old(store).retains() ==> final(store)@ == old(store)@
            &&& !(final(store)@.get(key) matches Some(CacheEntry::Loaded(_)))
        },
        r is Join ==> {
            &&& load
            &&& old(store)@.get(key) == Some(CacheEntry::<V, E>::Loading(r->Join_waiter))
            &&& r->Join_key == key
            &&& r->Join_deferred == Some(Deferred::<U, M>::Update(update_fn))
            &&& final(store)@.submap_of(old(store)@)
            &&& old(store).retains() ==> final(store)@ == old(store)@
        },
        r is Load ==> {
            &&& load
            &&& cloned(key, r->Load_key)
            &&& r->Load_deferred == Some(Deferred::<U, M>::Update(update_fn))
            &&& final(store)@.submap_of(
                old(store)@.insert(key, CacheEntry::Loading(r->Load_waiter)),
            )
            &&& old(store).retains() ==> final(store)@ == old(store)@.insert(
                key,
                CacheEntry::Loading(r->Load_waiter),
            )
        },
        old(store).retains() ==> match old(store)@.get(key) {
            Some(CacheEntry::Loaded(_)) => r is Respond && r->Respond_0 is Found,
            Some(CacheEntry::Loading(_)) => if load {
                r is Join
            } else {
                r == Outcome::<K, V, E, U, M>::Respond(CacheResult::Nothing)
            },
            None => if load {
                r is Load
            } else {
                r == Outcome::<K, V, E, U, M>::Respond(CacheResult::Nothing)
            },
        },
{
}

/// An update in place lets the function at the value of the key and answers with what it left
/// behind, which the key keeps. Without a value it waits for a load that is under way; where the
/// key is missing it has it loaded if it may, and is ignored otherwise.
pub proof fn law_update_mut<K, V, E, B, U, M, P, W>(
    store: &mut InternalCacheStore<K, V, E, B>,
    key: K,
    update_fn: M,
    load: bool,
    open: W,
    r: Outcome<K, V, E, U, M>,
) where
    K: Eq + Hash + Clone + Send,
    V: Clone + Send,
    E: Clone + Send + Debug,
    B: CacheBacking<K, CacheEntry<V, E>>,
    U: FnOnce(V) -> V,
    M: FnOnce(&mut V),
    P: Fn((&K, Option<&V>)) -> bool,
    W: FnOnce() -> tokio::sync::broadcast::Sender<Result<V, E>>,

    requires
        old(store).faithful(),
        call_ensures(
            InternalCacheStore::<K, V, E, B>::update_mut::<U, M, W>,
            (store, key, update_fn, load, open),
            r,
        )
            || call_ensures(
                InternalCacheStore::<K, V, E, B>::perform::<U, M, P, W>,
                (store, CacheAction::<K, V, U, M, P>::UpdateMut(key, update_fn, load), open),
                r,
            ),
    ensures
        final(store).faithful(),
        final(store).retains() == old(store).retains(),
        r matches Outcome::Respond(CacheResult::Found(updated)) ==> {
            &&& old(store)@.get(key) matches Some(CacheEntry::Loaded(_))
            &&& exists|place: &mut V| #[trigger]
                cloned(old(store)@[key]->Loaded_0, *place) && call_ensures(update_fn, (place,), ())
                    && *final(place) == updated
            &&& exists|kept: V| #[trigger]
                cloned(updated, kept) && final(store)@.submap_of(
                    old(store)@.insert(key, CacheEntry::Loaded(kept)),
                ) && (old(store).retains() ==> final(store)@ == old(store)@.insert(
                    key,
                    CacheEntry::Loaded(kept),
                ))
        },
        r is Respond && r->Respond_0 !is Found ==> {
            &&& r->Respond_0 == CacheResult::<V, E>::Nothing
            &&& !load
            &&& final(store)@.submap_of(old(store)@)
            &&& old(store).retains() ==> final(store)@ == old(store)@
            &&& !(final(store)@.get(key) matches Some(CacheEntry::Loaded(_)))
        },
        r is Join ==> {
            &&& old(store)@.get(key) == Some(CacheEntry::<V, E>::Loading(r->Join_waiter))
            &&& r->Join_key == key
            &&& r->Join_deferred == Some(Deferred::<U, M>::UpdateMut(update_fn))
            &&& final(store)@.submap_of(old(store)@)
            &&& old(store).retains() ==> final(store)@ == old(store)@
        },
        r is Load ==> {
            &&& load
            &&& cloned(key, r->Load_key)
            &&& r->Load_deferred == Some(Deferred::<U, M>::UpdateMut(update_fn))
            &&& final(store)@.submap_of(
                old(store)@.insert(key, CacheEntry::Loading(r->Load_waiter)),
            )
            &&& old(store).retains() ==> final(store)@ == old(store)@.insert(
                key,
                CacheEntry::Loading(r->Load_waiter),
            )
        },
        old(store).retains() ==> match old(store)@.get(key) {
            Some(CacheEntry::Loaded(_)) => r is Respond && r->Respond_0 is Found,
            Some(CacheEntry::Loading(_)) => r is Join,
            None => if load {
                r is Load
            } else {
                r == Outcome::<K, V, E, U, M>::Respond(CacheResult::Nothing)
            },
        },
{
}

/// `remove_if` removes an entry only where the predicate says so, and keeps one only where it does
/// not. The predicate is asked about a value together with its key, and about a load by its key
/// alone.
pub proof fn law_remove_if<K, V, E, B, U, M, P, W>(
    store: &mut InternalCacheStore<K, V, E, B>,
    predicate: P,
    open: W,
    answer: CacheResult<V, E>,
    key: K,
) where
    K: Eq + Hash + Clone + Send,
    V: Clone + Send,
    E: Clone + Send + Debug,
    B: CacheBacking<K, CacheEntry<V, E>>,
    U: FnOnce(V) -> V,
    M: FnOnce(&mut V),
    P: Fn((&K, Option<&V>)) -> bool,
    W: FnOnce() -> tokio::sync::broadcast::Sender<Result<V, E>>,

    requires
        old(store).faithful(),
        call_ensures(InternalCacheStore::<K, V, E, B>::remove_if::<P>, (store, predicate), answer)
            || call_ensures(
                InternalCacheStore::<K, V, E, B>::perform::<U, M, P, W>,
                (store, CacheAction::<K, V, U, M, P>::RemoveIf(predicate), open),
                Outcome::Respond(answer),
            ),
    ensures
        final(store).faithful(),
        final(store).retains() == old(store).retains(),
        answer == CacheResult::<V, E>::Nothing,
        final(store)@.submap_of(old(store)@),
        match old(store)@.get(key) {
            Some(CacheEntry::Loaded(value)) => {
                &&& final(store)@.contains_key(key) ==> call_ensures(
                    predicate,
                    ((&key, Some(&value)),),
                    false,
                )
                &&& old(store).retains() && !final(store)@.contains_key(key) ==> call_ensures(
                    predicate,
                    ((&key, Some(&value)),),
                    true,
                )
            },
            Some(CacheEntry::Loading(_)) => {
                &&& final(store)@.contains_key(key) ==> call_ensures(
                    predicate,
                    ((&key, None),),
                    false,
                )
                &&& old(store).retains() && !final(store)@.contains_key(key) ==> call_ensures(
                    predicate,
                    ((&key, None),),
                    true,
                )
            },
            None => !final(store)@.contains_key(key),
        },
{
}

/// Where the answers of the predicate are settled by what it is asked about, `remove_if` leaves
/// exactly the entries that it rejects: values by key and value, loads by their key alone.
pub proof fn law_remove_if_by_answers<K, V, E, B, U, M, P, W>(
    store: &mut InternalCacheStore<K, V, E, B>,
    predicate: P,
    accepts: spec_fn(K, Option<&V>) -> bool,
    open: W,
    answer: CacheResult<V, E>,
    key: K,
) where
    K: Eq + Hash + Clone + Send,
    V: Clone + Send,
    E: Clone + Send + Debug,
    B: CacheBacking<K, CacheEntry<V, E>>,
    U: FnOnce(V) -> V,
    M: FnOnce(&mut V),
    P: Fn((&K, Option<&V>)) -> bool,
    W: FnOnce() -> tokio::sync::broadcast::Sender<Result<V, E>>,

    requires
        old(store).faithful(),
        old(store).retains(),
        forall|asked: K, value: Option<&V>, verdict: bool| #[trigger]
            call_ensures(
                predicate,
                ((&asked, value),),
                verdict,
            ) ==> verdict == accepts(asked, value),
        call_ensures(InternalCacheStore::<K, V, E, B>::remove_if::<P>, (store, predicate), answer)
            || call_ensures(
                InternalCacheStore::<K, V, E, B>::perform::<U, M, P, W>,
                (store, CacheAction::<K, V, U, M, P>::RemoveIf(predicate), open),
                Outcome::Respond(answer),
            ),
    ensures
        match old(store)@.get(key) {
            Some(CacheEntry::Loaded(value)) => if accepts(key, Some(&value)) {
                final(store)@.get(key) is None
            } else {
                final(store)@.get(key) == old(store)@.get(key)
            },
            Some(CacheEntry::Loading(_)) => if accepts(key, None) {
                final(store)@.get(key) is None
            } else {
                final(store)@.get(key) == old(store)@.get(key)
            },
            None => final(store)@.get(key) is None,
        },
{
    law_remove_if::<K, V, E, B, U, M, P, W>(store, predicate, open, answer, key);
}

/// Only a request for a value, or an update, can have to wait for a load. One that may load a
/// missing key is never answered with nothing, and a load that starts is announced through the
/// sender that was made for it.
pub proof fn law_what_is_waited_for<K, V, E, B, U, M, P, W>(
    store: &mut InternalCacheStore<K, V, E, B>,
    action: CacheAction<K, V, U, M, P>,
    open: W,
    r: Outcome<K, V, E, U, M>,
) where
    K: Eq + Hash + Clone + Send,
    V: Clone + Send,
    E: Clone + Send + Debug,
    B: CacheBacking<K, CacheEntry<V, E>>,
    U: FnOnce(V) -> V,
    M: FnOnce(&mut V),
    P: Fn((&K, Option<&V>)) -> bool,
    W: FnOnce() -> tokio::sync::broadcast::Sender<Result<V, E>>,

    requires
        call_ensures(
            InternalCacheStore::<K, V, E, B>::perform::<U, M, P, W>,
            (store, action, open),
            r,
        ),
    ensures
        r is Load ==> call_ensures(open, (), r->Load_waiter),
        match action {
            CacheAction::Get(_) => r is Respond ==> r->Respond_0 is Found,
            CacheAction::Update(_, _, true) => r is Respond ==> r->Respond_0 is Found,
            CacheAction::UpdateMut(_, _, true) => r is Respond ==> r->Respond_0 is Found,
            _ => true,
        },
        old(store).faithful() ==> match action {
            CacheAction::Get(_) => true,
            CacheAction::Update(_, _, load) => r is Respond || load,
            CacheAction::UpdateMut(_, _, load) => r is Load ==> load,
            _ => r is Respond && r->Respond_0 !is Loading,
        },
{
}

/// A key is on record as being loaded only because an action has it loaded: that action asks for
/// the load of a copy of the key, and the end of the load is announced through the sender on
/// record.
pub proof fn law_loading_means_loaded<K, V, E, B, U, M, P, W>(
    store: &mut InternalCacheStore<K, V, E, B>,
    action: CacheAction<K, V, U, M, P>,
    open: W,
    r: Outcome<K, V, E, U, M>,
    key: K,
    waiter: tokio::sync::broadcast::Sender<Result<V, E>>,
) where
    K: Eq + Hash + Clone + Send,
    V: Clone + Send,
    E: Clone + Send + Debug,
    B: CacheBacking<K, CacheEntry<V, E>>,
    U: FnOnce(V) -> V,
    M: FnOnce(&mut V),
    P: Fn((&K, Option<&V>)) -> bool,
    W: FnOnce() -> tokio::sync::broadcast::Sender<Result<V, E>>,

    requires
        old(store).faithful(),
        call_ensures(
            InternalCacheStore::<K, V, E, B>::perform::<U, M, P, W>,
            (store, action, open),
            r,
        ),
        final(store)@.get(key) == Some(CacheEntry::<V, E>::Loading(waiter)),
        old(store)@.get(key) != Some(CacheEntry::<V, E>::Loading(waiter)),
    ensures
        r is Load,
        r->Load_waiter == waiter,
        cloned(key, r->Load_key),
        match action {
            CacheAction::Get(asked) => asked == key,
            CacheAction::Update(asked, _, load) => asked == key && load,
            CacheAction::UpdateMut(asked, _, load) => asked == key && load,
            _ => false,
        },
{
}

/// A key has a value only because it was set, because its load ended with it while the key was
/// being loaded, or because an update of the value that it had was answered with it.
pub proof fn law_values_are_given<K, V, E, B, U, M, P, W>(
    store: &mut InternalCacheStore<K, V, E, B>,
    action: CacheAction<K, V, U, M, P>,
    open: W,
    r: Outcome<K, V, E, U, M>,
    key: K,
    value: V,
) where
    K: Eq + Hash + Clone + Send,
    V: Clone + Send,
    E: Clone + Send + Debug,
    B: CacheBacking<K, CacheEntry<V, E>>,
    U: FnOnce(V) -> V,
    M: FnOnce(&mut V),
    P: Fn((&K, Option<&V>)) -> bool,
    W: FnOnce() -> tokio::sync::broadcast::Sender<Result<V, E>>,

    requires
        old(store).faithful(),
        call_ensures(
            InternalCacheStore::<K, V, E, B>::perform::<U, M, P, W>,
            (store, action, open),
            r,
        ),
        final(store)@.get(key) == Some(CacheEntry::<V, E>::Loaded(value)),
        old(store)@.get(key) != Some(CacheEntry::<V, E>::Loaded(value)),
    ensures
        match action {
            CacheAction::Put(given, new) => given == key && new == value,
            CacheAction::SetAndUnblock(loaded, new) => loaded == key && new == value
                && old(store)@.contains_key(key) && old(store)@[key] is Loading,
            CacheAction::Update(updated, _, _) => updated == key && old(store)@.contains_key(key)
                && old(store)@[key] is Loaded && r is Respond && r->Respond_0 is Found && cloned(
                r->Respond_0->Found_0,
                value,
            ),
            CacheAction::UpdateMut(updated, _, _) => updated == key && old(store)@.contains_key(key)
                && old(store)@[key] is Loaded && r is Respond && r->Respond_0 is Found && cloned(
                r->Respond_0->Found_0,
                value,
            ),
            _ => false,
        },
{
}

/// In a backing that retains, a key loses its entry only by being removed, by a predicate that
/// accepts what the key has, or because its load failed.
pub proof fn law_entries_are_kept<K, V, E, B, U, M, P, W>(
    store: &mut InternalCacheStore<K, V, E, B>,
    action: CacheAction<K, V, U, M, P>,
    open: W,
    r: Outcome<K, V, E, U, M>,
    key: K,
) where
    K: Eq + Hash + Clone + Send,
    V: Clone + Send,
    E: Clone + Send + Debug,
    B: CacheBacking<K, CacheEntry<V, E>>,
    U: FnOnce(V) -> V,
    M: FnOnce(&mut V),
    P: Fn((&K, Option<&V>)) -> bool,
    W: FnOnce() -> tokio::sync::broadcast::Sender<Result<V, E>>,

    requires
        old(store).faithful(),
        old(store).retains(),
        call_ensures(
            InternalCacheStore::<K, V, E, B>::perform::<U, M, P, W>,
            (store, action, open),
            r,
        ),
        old(store)@.contains_key(key),
        !final(store)@.contains_key(key),
    ensures
        match action {
            CacheAction::Remove(removed) => removed == key,
            CacheAction::Clear() => true,
            CacheAction::Unblock(failed) => failed == key && old(store)@[key] is Loading,
            CacheAction::RemoveIf(predicate) => match old(store)@[key] {
                CacheEntry::Loaded(value) => call_ensures(predicate, ((&key, Some(&value)),), true),
                CacheEntry::Loading(_) => call_ensures(predicate, ((&key, None),), true),
            },
            _ => false,
        },
{
}

/// Every action can be performed, as long as a sender can be made and the function that the action
/// brings along can be called on what is there: an update on copies of the value that the key has,
/// a predicate on each key with its value, or on the key alone while it is being loaded.
pub proof fn law_actions_can_be_performed<K, V, E, B, U, M, P, W>(
    store: &mut InternalCacheStore<K, V, E, B>,
    action: CacheAction<K, V, U, M, P>,
    open: W,
) where
    K: Eq + Hash + Clone + Send,
    V: Clone + Send,
    E: Clone + Send + Debug,
    B: CacheBacking<K, CacheEntry<V, E>>,
    U: FnOnce(V) -> V,
    M: FnOnce(&mut V),
    P: Fn((&K, Option<&V>)) -> bool,
    W: FnOnce() -> tokio::sync::broadcast::Sender<Result<V, E>>,

    requires
        old(store).faithful(),
        call_requires(open, ()),
        match action {
            CacheAction::Update(key, update_fn, _) => old(store)@.get(key) matches Some(
                CacheEntry::Loaded(value),
            ) ==> forall|copy: V| cloned(value, copy) ==> #[trigger] call_requires(
                update_fn,
                (copy,),
            ),
            CacheAction::UpdateMut(key, update_fn, _) => old(store)@.get(key) matches Some(
                CacheEntry::Loaded(value),
            ) ==> forall|place: &mut V|
                cloned(value, *place) ==> #[trigger] call_requires(update_fn, (place,)),
            CacheAction::RemoveIf(predicate) => forall|key: K| #[trigger]
                old(store)@.contains_key(key) ==> match old(store)@[key] {
                    CacheEntry::Loaded(value) => call_requires(predicate, ((&key, Some(&value)),)),
                    CacheEntry::Loading(_) => call_requires(predicate, ((&key, None),)),
                },
            _ => true,
        },
    ensures
        call_requires(
            InternalCacheStore::<K, V, E, B>::perform::<U, M, P, W>,
            (store, action, open),
        ),
        match action {
            CacheAction::GetIfPresent(key) => call_requires(
                InternalCacheStore::<K, V, E, B>::get_if_present,
                (store, key),
            ),
            CacheAction::Get(key) => call_requires(
                InternalCacheStore::<K, V, E, B>::get::<U, M, W>,
                (store, key, open),
            ),
            CacheAction::Put(key, value) => call_requires(
                InternalCacheStore::<K, V, E, B>::set,
                (store, key, value),
            ),
            CacheAction::Update(key, update_fn, load) => call_requires(
                InternalCacheStore::<K, V, E, B>::update::<U, M, W>,
                (store, key, update_fn, load, open),
            ),
            CacheAction::UpdateMut(key, update_fn, load) => call_requires(
                InternalCacheStore::<K, V, E, B>::update_mut::<U, M, W>,
                (store, key, update_fn, load, open),
            ),
            CacheAction::Remove(key) => call_requires(
                InternalCacheStore::<K, V, E, B>::remove,
                (store, key),
            ),
            CacheAction::RemoveIf(predicate) => call_requires(
                InternalCacheStore::<K, V, E, B>::remove_if::<P>,
                (store, predicate),
            ),
            CacheAction::Clear() => call_requires(
                InternalCacheStore::<K, V, E, B>::clear,
                (store,),
            ),
            CacheAction::SetAndUnblock(key, value) => call_requires(
                InternalCacheStore::<K, V, E, B>::set_and_unblock,
                (store, key, value),
            ),
            CacheAction::Unblock(key) => call_requires(
                InternalCacheStore::<K, V, E, B>::unblock,
                (store, key),
            ),
        },
{
}

/// Also where the entries cannot be relied on, every action can be performed, as long as a sender
/// can be made and the function that the action brings along can be called on anything.
pub proof fn law_actions_can_be_performed_on_any_store<K, V, E, B, U, M, P, W>(
    store: &mut InternalCacheStore<K, V, E, B>,
    action: CacheAction<K, V, U, M, P>,
    open: W,
) where
    K: Eq + Hash + Clone + Send,
    V: Clone + Send,
    E: Clone + Send + Debug,
    B: CacheBacking<K, CacheEntry<V, E>>,
    U: FnOnce(V) -> V,
    M: FnOnce(&mut V),
    P: Fn((&K, Option<&V>)) -> bool,
    W: FnOnce() -> tokio::sync::broadcast::Sender<Result<V, E>>,

    requires
        call_requires(open, ()),
        match action {
            CacheAction::Update(_, update_fn, _) => forall|copy: V| #[trigger]
                call_requires(update_fn, (copy,)),
            CacheAction::UpdateMut(_, update_fn, _) => forall|place: &mut V| #[trigger]
                call_requires(update_fn, (place,)),
            CacheAction::RemoveIf(predicate) => forall|key: K, value: Option<&V>| #[trigger]
                call_requires(predicate, ((&key, value),)),
            _ => true,
        },
    ensures
        call_requires(
            InternalCacheStore::<K, V, E, B>::perform::<U, M, P, W>,
            (store, action, open),
        ),
{
}

} // verus!
