//! Loads from their start to what follows their end, stated of the calls that make up the way.

use crate::backing::CacheBacking;
use crate::cache_api::{
    CacheCommunicationError, CacheEntry, CacheLoadingError, CacheResult, ResultMeta,
};
use crate::exchange::{advance, Effect, Event, Stage};
use crate::internal_cache::{CacheAction, Deferred, InternalCacheStore, Outcome};
use crate::loading::{conclude_update, end_load, join_load, resume, LoadEnd};
use std::fmt::Debug;
use std::hash::Hash;
use vstd::prelude::*;

verus! {

/// The end of a load is reported of the key that was loaded. With a value, the cache, those who
/// wait and the request that started the load all get it; with an error, the cache gets to know
/// that there is no value, and the others get the error.
pub proof fn law_end_of_a_load<K, V: Clone, E: Clone + Debug, U, M, P>(
    key: K,
    loaded: Result<V, E>,
    r: LoadEnd<K, V, E, U, M, P>,
)
    requires
        call_ensures(end_load::<K, V, E, U, M, P>, (key, loaded), r),
    ensures
        loaded is Ok ==> {
            &&& r.report matches CacheAction::SetAndUnblock(reported, copy) && reported == key
                && cloned(loaded->Ok_0, copy)
            &&& r.announcement is Ok && cloned(loaded->Ok_0, r.announcement->Ok_0)
            &&& r.result == Ok::<V, CacheLoadingError<E>>(loaded->Ok_0)
        },
        loaded is Err ==> {
            &&& r.report == CacheAction::<K, V, U, M, P>::Unblock(key)
            &&& r.announcement is Err && cloned(loaded->Err_0, r.announcement->Err_0)
            &&& r.result == Err::<V, _>(CacheLoadingError::LoadingError(loaded->Err_0))
        },
{
}

/// Whoever waits for a load gets what is announced of it, be it the value or the error of the
/// loader, and an error of its own where nothing was heard.
pub proof fn law_waiting_for_a_load<V, E: Debug>(
    announced: Result<Result<V, E>, tokio::sync::broadcast::error::RecvError>,
    r: Result<V, CacheLoadingError<E>>,
)
    requires
        call_ensures(join_load::<V, E>, (announced,), r),
    ensures
        r is Ok <==> announced is Ok && announced->Ok_0 is Ok,
        r is Ok ==> announced->Ok_0 == Ok::<V, E>(r->Ok_0),
        announced is Ok && announced->Ok_0 is Err ==> r == Err::<V, _>(
            CacheLoadingError::LoadingError(announced->Ok_0->Err_0),
        ),
        announced is Err ==> r == Err::<V, _>(
            CacheLoadingError::<E>::CommunicationError(
                CacheCommunicationError::TokioBroadcastRecvError(announced->Err_0),
            ),
        ),
{
}

/// An update that waited for a load is taken up with the same function on the same key, and does
/// not have the key loaded again.
pub proof fn law_update_is_taken_up<K, V, U, M, P>(
    key: K,
    deferred: Deferred<U, M>,
    r: CacheAction<K, V, U, M, P>,
)
    requires
        call_ensures(resume::<K, V, U, M, P>, (key, deferred), r),
    ensures
        deferred is Update ==> r == CacheAction::<K, V, U, M, P>::Update(
            key,
            deferred->Update_0,
            false,
        ),
        deferred is UpdateMut ==> r == CacheAction::<K, V, U, M, P>::UpdateMut(
            key,
            deferred->UpdateMut_0,
            false,
        ),
{
}

/// An update that waited for a load succeeds exactly if there was a value to update, and then gives
/// the updated value. Where there was none it gives the error of the load, or says that there is no
/// data where the load had none; where it went wrong itself it gives that error.
pub proof fn law_end_of_a_delayed_update<V, E: Debug>(
    waited: Result<V, CacheLoadingError<E>>,
    resumed: Option<Result<Option<ResultMeta<V>>, CacheLoadingError<E>>>,
    r: Result<V, CacheLoadingError<E>>,
)
    requires
        call_ensures(conclude_update::<V, E>, (waited, resumed), r),
    ensures
        r is Ok <==> resumed is Some && resumed->0 is Ok && resumed->0->Ok_0 is Some,
        r is Ok ==> r->Ok_0 == resumed->0->Ok_0->0.result,
        resumed is Some && resumed->0 is Err ==> r == Err::<V, _>(resumed->0->Err_0),
        resumed is Some && resumed->0 is Ok && resumed->0->Ok_0 is None && waited is Err ==> r
            == Err::<V, _>(waited->Err_0),
        resumed is Some && resumed->0 is Ok && resumed->0->Ok_0 is None && waited is Ok ==> r
            == Err::<V, _>(CacheLoadingError::<E>::NoData()),
        resumed is None ==> r == Err::<V, _>(
            CacheLoadingError::<E>::CommunicationError(CacheCommunicationError::LookupLoop()),
        ),
{
}

/// The end of any load can be dealt with, and so can any update that waited for it.
pub proof fn law_every_end_can_be_dealt_with<K, V: Clone, E: Clone + Debug, U, M, P>(
    key: K,
    loaded: Result<V, E>,
    announced: Result<Result<V, E>, tokio::sync::broadcast::error::RecvError>,
    deferred: Deferred<U, M>,
    waited: Result<V, CacheLoadingError<E>>,
    resumed: Option<Result<Option<ResultMeta<V>>, CacheLoadingError<E>>>,
)
    ensures
        call_requires(end_load::<K, V, E, U, M, P>, (key, loaded)),
        call_requires(join_load::<V, E>, (announced,)),
        call_requires(resume::<K, V, U, M, P>, (key, deferred)),
        call_requires(conclude_update::<V, E>, (waited, resumed)),
{
}

/// The value that a load ended with stays in the cache: the key has a copy of it from then on,
/// every request for the key is answered with that, and so is every look. None of them changes an
/// entry, and the key is not loaded again.
///
/// Stated where a copy of a key is the key.
pub proof fn law_loaded_value_is_kept<K, V, E, B, U, M, P, W>(
    asked: &mut InternalCacheStore<K, V, E, B>,
    reported: &mut InternalCacheStore<K, V, E, B>,
    asked_again: &mut InternalCacheStore<K, V, E, B>,
    looked: &mut InternalCacheStore<K, V, E, B>,
    key: K,
    value: V,
    open: W,
    end: LoadEnd<K, V, E, U, M, P>,
    r: Outcome<K, V, E, U, M>,
    done: Outcome<K, V, E, U, M>,
    again: Outcome<K, V, E, U, M>,
    look: CacheResult<V, E>,
) where
    K: Eq + Hash + Clone + Send,
    V: Clone + Send,
    E: Clone + Send + Debug,
    B: CacheBacking<K, CacheEntry<V, E>>,
    U: FnOnce(V) -> V,
    M: FnOnce(&mut V),
    P: Fn((&K, Option<&V>)) -> bool,
    W: FnOnce() -> tokio::sync::broadcast::Sender<Result<V, E>>,

    requires
        forall|source: K, copy: K| #[trigger] cloned(source, copy) ==> copy == source,
        old(asked).faithful(),
        old(asked).retains(),
        call_ensures(InternalCacheStore::<K, V, E, B>::get::<U, M, W>, (asked, key, open), r),
        r is Load,
        call_ensures(end_load::<K, V, E, U, M, P>, (r->Load_key, Ok(value)), end),
        *old(reported) == *final(asked),
        call_ensures(
            InternalCacheStore::<K, V, E, B>::perform::<U, M, P, W>,
            (reported, end.report, open),
            done,
        ),
        *old(asked_again) == *final(reported),
        call_ensures(
            InternalCacheStore::<K, V, E, B>::get::<U, M, W>,
            (asked_again, key, open),
            again,
        ),
        *old(looked) == *final(asked_again),
        call_ensures(InternalCacheStore::<K, V, E, B>::get_if_present, (looked, key), look),
    ensures
        old(asked)@.get(key) is None,
        done is Respond,
        final(reported)@.contains_key(key),
        final(reported)@ == old(asked)@.insert(key, final(reported)@[key]),
        final(reported)@[key] is Loaded && cloned(value, final(reported)@[key]->Loaded_0),
        again matches Outcome::Respond(CacheResult::Found(copy)) && cloned(
            final(reported)@[key]->Loaded_0,
            copy,
        ),
        look matches CacheResult::Found(copy) && cloned(final(reported)@[key]->Loaded_0, copy),
        final(asked_again)@ == final(reported)@,
        final(looked)@ == final(reported)@,
        end.result == Ok::<V, CacheLoadingError<E>>(value),
{
}

/// A load that failed leaves the cache as it was before it: the error is what the request ends in,
/// and the next request for the key has it loaded again.
///
/// Stated where a copy of a key is the key.
pub proof fn law_failed_load_leaves_nothing<K, V, E, B, U, M, P, W>(
    asked: &mut InternalCacheStore<K, V, E, B>,
    reported: &mut InternalCacheStore<K, V, E, B>,
    asked_again: &mut InternalCacheStore<K, V, E, B>,
    key: K,
    error: E,
    open: W,
    end: LoadEnd<K, V, E, U, M, P>,
    r: Outcome<K, V, E, U, M>,
    done: Outcome<K, V, E, U, M>,
    again: Outcome<K, V, E, U, M>,
) where
    K: Eq + Hash + Clone + Send,
    V: Clone + Send,
    E: Clone + Send + Debug,
    B: CacheBacking<K, CacheEntry<V, E>>,
    U: FnOnce(V) -> V,
    M: FnOnce(&mut V),
    P: Fn((&K, Option<&V>)) -> bool,
    W: FnOnce() -> tokio::sync::broadcast::Sender<Result<V, E>>,

    requires
        forall|source: K, copy: K| #[trigger] cloned(source, copy) ==> copy == source,
        old(asked).faithful(),
        old(asked).retains(),
        call_ensures(InternalCacheStore::<K, V, E, B>::get::<U, M, W>, (asked, key, open), r),
        r is Load,
        call_ensures(end_load::<K, V, E, U, M, P>, (r->Load_key, Err(error)), end),
        *old(reported) == *final(asked),
        call_ensures(
            InternalCacheStore::<K, V, E, B>::perform::<U, M, P, W>,
            (reported, end.report, open),
            done,
        ),
        *old(asked_again) == *final(reported),
        call_ensures(
            InternalCacheStore::<K, V, E, B>::get::<U, M, W>,
            (asked_again, key, open),
            again,
        ),
    ensures
        final(reported)@ == old(asked)@,
        again is Load,
        end.result == Err::<V, _>(CacheLoadingError::LoadingError(error)),
{
}

/// A value that is set while the key is being loaded stays, however the load ends, and is what the
/// next request gets.
///
/// Stated where a copy of a key is the key.
pub proof fn law_set_value_outlives_a_load<K, V, E, B, U, M, P, W>(
    asked: &mut InternalCacheStore<K, V, E, B>,
    set: &mut InternalCacheStore<K, V, E, B>,
    reported: &mut InternalCacheStore<K, V, E, B>,
    asked_again: &mut InternalCacheStore<K, V, E, B>,
    key: K,
    value: V,
    loaded: Result<V, E>,
    open: W,
    end: LoadEnd<K, V, E, U, M, P>,
    r: Outcome<K, V, E, U, M>,
    previous: CacheResult<V, E>,
    done: Outcome<K, V, E, U, M>,
    again: Outcome<K, V, E, U, M>,
) where
    K: Eq + Hash + Clone + Send,
    V: Clone + Send,
    E: Clone + Send + Debug,
    B: CacheBacking<K, CacheEntry<V, E>>,
    U: FnOnce(V) -> V,
    M: FnOnce(&mut V),
    P: Fn((&K, Option<&V>)) -> bool,
    W: FnOnce() -> tokio::sync::broadcast::Sender<Result<V, E>>,

    requires
        forall|source: K, copy: K| #[trigger] cloned(source, copy) ==> copy == source,
        old(asked).faithful(),
        old(asked).retains(),
        call_ensures(InternalCacheStore::<K, V, E, B>::get::<U, M, W>, (asked, key, open), r),
        r is Load,
        *old(set) == *final(asked),
        call_ensures(InternalCacheStore::<K, V, E, B>::set, (set, key, value), previous),
        call_ensures(end_load::<K, V, E, U, M, P>, (r->Load_key, loaded), end),
        *old(reported) == *final(set),
        call_ensures(
            InternalCacheStore::<K, V, E, B>::perform::<U, M, P, W>,
            (reported, end.report, open),
            done,
        ),
        *old(asked_again) == *final(reported),
        call_ensures(
            InternalCacheStore::<K, V, E, B>::get::<U, M, W>,
            (asked_again, key, open),
            again,
        ),
    ensures
        previous == CacheResult::<V, E>::Nothing,
        final(reported)@ == old(asked)@.insert(key, CacheEntry::Loaded(value)),
        again matches Outcome::Respond(CacheResult::Found(copy)) && cloned(value, copy),
{
}

/// A key that is removed while it is being loaded, be it by itself or with all others, stays away,
/// however the load ends, and the next request has it loaded again.
///
/// Stated where a copy of a key is the key.
pub proof fn law_removed_key_outlives_a_load<K, V, E, B, U, M, P, W>(
    asked: &mut InternalCacheStore<K, V, E, B>,
    removed: &mut InternalCacheStore<K, V, E, B>,
    reported: &mut InternalCacheStore<K, V, E, B>,
    asked_again: &mut InternalCacheStore<K, V, E, B>,
    key: K,
    all: bool,
    loaded: Result<V, E>,
    open: W,
    end: LoadEnd<K, V, E, U, M, P>,
    r: Outcome<K, V, E, U, M>,
    previous: CacheResult<V, E>,
    done: Outcome<K, V, E, U, M>,
    again: Outcome<K, V, E, U, M>,
) where
    K: Eq + Hash + Clone + Send,
    V: Clone + Send,
    E: Clone + Send + Debug,
    B: CacheBacking<K, CacheEntry<V, E>>,
    U: FnOnce(V) -> V,
    M: FnOnce(&mut V),
    P: Fn((&K, Option<&V>)) -> bool,
    W: FnOnce() -> tokio::sync::broadcast::Sender<Result<V, E>>,

    requires
        forall|source: K, copy: K| #[trigger] cloned(source, copy) ==> copy == source,
        old(asked).faithful(),
        old(asked).retains(),
        call_ensures(InternalCacheStore::<K, V, E, B>::get::<U, M, W>, (asked, key, open), r),
        r is Load,
        *old(removed) == *final(asked),
        if all {
            call_ensures(InternalCacheStore::<K, V, E, B>::clear, (removed,), previous)
        } else {
            call_ensures(InternalCacheStore::<K, V, E, B>::remove, (removed, key), previous)
        },
        call_ensures(end_load::<K, V, E, U, M, P>, (r->Load_key, loaded), end),
        *old(reported) == *final(removed),
        call_ensures(
            InternalCacheStore::<K, V, E, B>::perform::<U, M, P, W>,
            (reported, end.report, open),
            done,
        ),
        *old(asked_again) == *final(reported),
        call_ensures(
            InternalCacheStore::<K, V, E, B>::get::<U, M, W>,
            (asked_again, key, open),
            again,
        ),
    ensures
        previous == CacheResult::<V, E>::Nothing,
        final(reported)@ == if all {
            Map::<K, CacheEntry<V, E>>::empty()
        } else {
            old(asked)@
        },
        again is Load,
{
}

/// An update of a missing key is made once the key is loaded: the function is handed a copy of the
/// loaded value, and what it returns is both what the key keeps and what the caller gets.
///
/// Stated where a copy of a key is the key.
pub proof fn law_update_follows_its_load<K, V, E, B, U, M, P, W>(
    asked: &mut InternalCacheStore<K, V, E, B>,
    reported: &mut InternalCacheStore<K, V, E, B>,
    resumed: &mut InternalCacheStore<K, V, E, B>,
    key: K,
    value: V,
    update_fn: U,
    open: W,
    end: LoadEnd<K, V, E, U, M, P>,
    action: CacheAction<K, V, U, M, P>,
    r: Outcome<K, V, E, U, M>,
    done: Outcome<K, V, E, U, M>,
    s: Outcome<K, V, E, U, M>,
    stage: Stage,
    read: Result<Option<ResultMeta<V>>, CacheLoadingError<E>>,
    updated: Result<V, CacheLoadingError<E>>,
) where
    K: Eq + Hash + Clone + Send,
    V: Clone + Send,
    E: Clone + Send + Debug,
    B: CacheBacking<K, CacheEntry<V, E>>,
    U: FnOnce(V) -> V,
    M: FnOnce(&mut V),
    P: Fn((&K, Option<&V>)) -> bool,
    W: FnOnce() -> tokio::sync::broadcast::Sender<Result<V, E>>,

    requires
        forall|source: K, copy: K| #[trigger] cloned(source, copy) ==> copy == source,
        old(asked).faithful(),
        old(asked).retains(),
        call_ensures(
            InternalCacheStore::<K, V, E, B>::update::<U, M, W>,
            (asked, key, update_fn, true, open),
            r,
        ),
        r is Load,
        call_ensures(end_load::<K, V, E, U, M, P>, (r->Load_key, Ok(value)), end),
        *old(reported) == *final(asked),
        call_ensures(
            InternalCacheStore::<K, V, E, B>::perform::<U, M, P, W>,
            (reported, end.report, open),
            done,
        ),
        call_ensures(
            resume::<K, V, U, M, P>,
            (r->Load_key, r->Load_deferred.unwrap()),
            action,
        ),
        *old(resumed) == *final(reported),
        call_ensures(
            InternalCacheStore::<K, V, E, B>::perform::<U, M, P, W>,
            (resumed, action, open),
            s,
        ),
        s is Respond,
        call_ensures(
            advance::<V, E>,
            (Stage::AwaitingResponse, Event::<V, E>::Responded(Ok(s->Respond_0))),
            (stage, Effect::Finish(read)),
        ),
        call_ensures(conclude_update::<V, E>, (end.result, Some(read)), updated),
    ensures
        updated is Ok,
        exists|kept: V, copy: V|
            #![trigger cloned(value, kept), cloned(kept, copy)]
            cloned(value, kept) && cloned(kept, copy) && call_ensures(
                update_fn,
                (copy,),
                updated->Ok_0,
            ),
        final(resumed)@.contains_key(key),
        final(resumed)@ == old(asked)@.insert(key, final(resumed)@[key]),
        final(resumed)@[key] is Loaded && cloned(updated->Ok_0, final(resumed)@[key]->Loaded_0),
{
    let kept = final(reported)@[key]->Loaded_0;
    assert(cloned(value, kept));
    let copy = choose|copy: V| #[trigger]
        cloned(kept, copy) && call_ensures(update_fn, (copy,), updated->Ok_0);
    assert(cloned(kept, copy) && call_ensures(update_fn, (copy,), updated->Ok_0));
}

/// An update in place of a missing key is made once the key is loaded: the function is let at a
/// copy of the loaded value, and what it leaves behind is both what the key keeps and what the
/// caller gets.
///
/// Stated where a copy of a key is the key.
pub proof fn law_update_mut_follows_its_load<K, V, E, B, U, M, P, W>(
    asked: &mut InternalCacheStore<K, V, E, B>,
    reported: &mut InternalCacheStore<K, V, E, B>,
    resumed: &mut InternalCacheStore<K, V, E, B>,
    key: K,
    value: V,
    update_fn: M,
    open: W,
    end: LoadEnd<K, V, E, U, M, P>,
    action: CacheAction<K, V, U, M, P>,
    r: Outcome<K, V, E, U, M>,
    done: Outcome<K, V, E, U, M>,
    s: Outcome<K, V, E, U, M>,
    stage: Stage,
    read: Result<Option<ResultMeta<V>>, CacheLoadingError<E>>,
    updated: Result<V, CacheLoadingError<E>>,
) where
    K: Eq + Hash + Clone + Send,
    V: Clone + Send,
    E: Clone + Send + Debug,
    B: CacheBacking<K, CacheEntry<V, E>>,
    U: FnOnce(V) -> V,
    M: FnOnce(&mut V),
    P: Fn((&K, Option<&V>)) -> bool,
    W: FnOnce() -> tokio::sync::broadcast::Sender<Result<V, E>>,

    requires
        forall|source: K, copy: K| #[trigger] cloned(source, copy) ==> copy == source,
        old(asked).faithful(),
        old(asked).retains(),
        call_ensures(
            InternalCacheStore::<K, V, E, B>::update_mut::<U, M, W>,
            (asked, key, update_fn, true, open),
            r,
        ),
        r is Load,
        call_ensures(end_load::<K, V, E, U, M, P>, (r->Load_key, Ok(value)), end),
        *old(reported) == *final(asked),
        call_ensures(
            InternalCacheStore::<K, V, E, B>::perform::<U, M, P, W>,
            (reported, end.report, open),
            done,
        ),
        call_ensures(
            resume::<K, V, U, M, P>,
            (r->Load_key, r->Load_deferred.unwrap()),
            action,
        ),
        *old(resumed) == *final(reported),
        call_ensures(
            InternalCacheStore::<K, V, E, B>::perform::<U, M, P, W>,
            (resumed, action, open),
            s,
        ),
        s is Respond,
        call_ensures(
            advance::<V, E>,
            (Stage::AwaitingResponse, Event::<V, E>::Responded(Ok(s->Respond_0))),
            (stage, Effect::Finish(read)),
        ),
        call_ensures(conclude_update::<V, E>, (end.result, Some(read)), updated),
    ensures
        updated is Ok,
        final(reported)@[key] is Loaded && cloned(value, final(reported)@[key]->Loaded_0),
        exists|place: &mut V| #[trigger]
            cloned(final(reported)@[key]->Loaded_0, *place) && call_ensures(update_fn, (place,), ())
                && *final(place) == updated->Ok_0,
        final(resumed)@.contains_key(key),
        final(resumed)@ == old(asked)@.insert(key, final(resumed)@[key]),
        final(resumed)@[key] is Loaded && cloned(updated->Ok_0, final(resumed)@[key]->Loaded_0),
{
}

/// A backing that retains does so, and can be relied on, after any number of actions.
proof fn lemma_run_retains<K, V, E, B, U, M, P, W>(
    stores: Seq<&mut InternalCacheStore<K, V, E, B>>,
    actions: Seq<CacheAction<K, V, U, M, P>>,
    opens: Seq<W>,
    outcomes: Seq<Outcome<K, V, E, U, M>>,
    n: int,
) where
    K: Eq + Hash + Clone + Send,
    V: Clone + Send,
    E: Clone + Send + Debug,
    B: CacheBacking<K, CacheEntry<V, E>>,
    U: FnOnce(V) -> V,
    M: FnOnce(&mut V),
    P: Fn((&K, Option<&V>)) -> bool,
    W: FnOnce() -> tokio::sync::broadcast::Sender<Result<V, E>>,

    requires
        0 <= n < actions.len(),
        actions.len() == stores.len(),
        actions.len() == opens.len(),
        actions.len() == outcomes.len(),
        stores[0].faithful(),
        stores[0].retains(),
        forall|i: int|
            0 <= i < actions.len() ==> #[trigger] call_ensures(
                InternalCacheStore::<K, V, E, B>::perform::<U, M, P, W>,
                (stores[i], actions[i], opens[i]),
                outcomes[i],
            ),
        forall|i: int|
            0 <= i < actions.len() - 1 ==> *(#[trigger] stores[i + 1]) == *final(stores[i]),
    ensures
        stores[n].faithful(),
        stores[n].retains(),
    decreases n,
{
    if n > 0 {
        let i = n - 1;
        lemma_run_retains(stores, actions, opens, outcomes, i);
        assert(call_ensures(
            InternalCacheStore::<K, V, E, B>::perform::<U, M, P, W>,
            (stores[i], actions[i], opens[i]),
            outcomes[i],
        ));
        assert(*stores[i + 1] == *final(stores[i]));
    }
}

/// However many actions are performed, in a backing that retains: a key that has an entry has one
/// until an action removes the key, or removes everything, or removes what a predicate accepts, the
/// entry among it, or reports that the load of the key failed while it was under way. Until then no
/// action has the key loaded.
pub proof fn law_entry_stays_in_any_run<K, V, E, B, U, M, P, W>(
    stores: Seq<&mut InternalCacheStore<K, V, E, B>>,
    actions: Seq<CacheAction<K, V, U, M, P>>,
    opens: Seq<W>,
    outcomes: Seq<Outcome<K, V, E, U, M>>,
    key: K,
    first: int,
    next: int,
) where
    K: Eq + Hash + Clone + Send,
    V: Clone + Send,
    E: Clone + Send + Debug,
    B: CacheBacking<K, CacheEntry<V, E>>,
    U: FnOnce(V) -> V,
    M: FnOnce(&mut V),
    P: Fn((&K, Option<&V>)) -> bool,
    W: FnOnce() -> tokio::sync::broadcast::Sender<Result<V, E>>,

    requires
        0 <= first <= next < actions.len(),
        actions.len() == stores.len(),
        actions.len() == opens.len(),
        actions.len() == outcomes.len(),
        stores[0].faithful(),
        stores[0].retains(),
        forall|i: int|
            0 <= i < actions.len() ==> #[trigger] call_ensures(
                InternalCacheStore::<K, V, E, B>::perform::<U, M, P, W>,
                (stores[i], actions[i], opens[i]),
                outcomes[i],
            ),
        forall|i: int|
            0 <= i < actions.len() - 1 ==> *(#[trigger] stores[i + 1]) == *final(stores[i]),
        stores[first]@.contains_key(key),
        forall|i: int|
            first <= i < next ==> !(match #[trigger] actions[i] {
                CacheAction::Remove(removed) => removed == key,
                CacheAction::Clear() => true,
                CacheAction::RemoveIf(predicate) => match stores[i]@[key] {
                    CacheEntry::Loaded(value) => call_ensures(
                        predicate,
                        ((&key, Some(&value)),),
                        true,
                    ),
                    CacheEntry::Loading(_) => call_ensures(predicate, ((&key, None),), true),
                },
                CacheAction::Unblock(failed) => failed == key && stores[i]@[key] is Loading,
                _ => false,
            }),
    ensures
        stores[next]@.contains_key(key),
        match actions[next] {
            CacheAction::Get(asked) => asked == key,
            CacheAction::Update(asked, _, _) => asked == key,
            CacheAction::UpdateMut(asked, _, _) => asked == key,
            _ => false,
        } ==> outcomes[next] !is Load,
    decreases next - first,
{
    lemma_run_retains(stores, actions, opens, outcomes, next);
    assert(call_ensures(
        InternalCacheStore::<K, V, E, B>::perform::<U, M, P, W>,
        (stores[next], actions[next], opens[next]),
        outcomes[next],
    ));
    if first < next {
        let i = next - 1;
        law_entry_stays_in_any_run(stores, actions, opens, outcomes, key, first, i);
        lemma_run_retains(stores, actions, opens, outcomes, i);
        assert(call_ensures(
            InternalCacheStore::<K, V, E, B>::perform::<U, M, P, W>,
            (stores[i], actions[i], opens[i]),
            outcomes[i],
        ));
        assert(*stores[i + 1] == *final(stores[i]));
        let action = actions[i];
    }
}

/// However many actions are performed, in a backing that retains: between two actions that have the
/// same key loaded there is one that removes the key, or removes everything, or removes what a
/// predicate accepts, the entry of the key among it, or that reports that the load of the key
/// failed while it was under way.
pub proof fn law_one_load_in_any_run<K, V, E, B, U, M, P, W>(
    stores: Seq<&mut InternalCacheStore<K, V, E, B>>,
    actions: Seq<CacheAction<K, V, U, M, P>>,
    opens: Seq<W>,
    outcomes: Seq<Outcome<K, V, E, U, M>>,
    key: K,
    first: int,
    next: int,
) where
    K: Eq + Hash + Clone + Send,
    V: Clone + Send,
    E: Clone + Send + Debug,
    B: CacheBacking<K, CacheEntry<V, E>>,
    U: FnOnce(V) -> V,
    M: FnOnce(&mut V),
    P: Fn((&K, Option<&V>)) -> bool,
    W: FnOnce() -> tokio::sync::broadcast::Sender<Result<V, E>>,

    requires
        0 <= first < next < actions.len(),
        actions.len() == stores.len(),
        actions.len() == opens.len(),
        actions.len() == outcomes.len(),
        stores[0].faithful(),
        stores[0].retains(),
        forall|i: int|
            0 <= i < actions.len() ==> #[trigger] call_ensures(
                InternalCacheStore::<K, V, E, B>::perform::<U, M, P, W>,
                (stores[i], actions[i], opens[i]),
                outcomes[i],
            ),
        forall|i: int|
            0 <= i < actions.len() - 1 ==> *(#[trigger] stores[i + 1]) == *final(stores[i]),
        outcomes[first] is Load,
        outcomes[next] is Load,
        match actions[first] {
            CacheAction::Get(asked) => asked == key,
            CacheAction::Update(asked, _, _) => asked == key,
            CacheAction::UpdateMut(asked, _, _) => asked == key,
            _ => false,
        },
        match actions[next] {
            CacheAction::Get(asked) => asked == key,
            CacheAction::Update(asked, _, _) => asked == key,
            CacheAction::UpdateMut(asked, _, _) => asked == key,
            _ => false,
        },
    ensures
        exists|i: int|
            first < i < next && match #[trigger] actions[i] {
                CacheAction::Remove(removed) => removed == key,
                CacheAction::Clear() => true,
                CacheAction::RemoveIf(predicate) => match stores[i]@[key] {
                    CacheEntry::Loaded(value) => call_ensures(
                        predicate,
                        ((&key, Some(&value)),),
                        true,
                    ),
                    CacheEntry::Loading(_) => call_ensures(predicate, ((&key, None),), true),
                },
                CacheAction::Unblock(failed) => failed == key && stores[i]@[key] is Loading,
                _ => false,
            },
{
    lemma_run_retains(stores, actions, opens, outcomes, first);
    assert(call_ensures(
        InternalCacheStore::<K, V, E, B>::perform::<U, M, P, W>,
        (stores[first], actions[first], opens[first]),
        outcomes[first],
    ));
    assert(*stores[first + 1] == *final(stores[first]));
    if forall|i: int|
        first + 1 <= i < next ==> !(match #[trigger] actions[i] {
            CacheAction::Remove(removed) => removed == key,
            CacheAction::Clear() => true,
            CacheAction::RemoveIf(predicate) => match stores[i]@[key] {
                CacheEntry::Loaded(value) => call_ensures(
                    predicate,
                    ((&key, Some(&value)),),
                    true,
                ),
                CacheEntry::Loading(_) => call_ensures(predicate, ((&key, None),), true),
            },
            CacheAction::Unblock(failed) => failed == key && stores[i]@[key] is Loading,
            _ => false,
        }) {
        law_entry_stays_in_any_run(stores, actions, opens, outcomes, key, first + 1, next);
    }
}

} // verus!
