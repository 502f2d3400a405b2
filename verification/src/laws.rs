//! What holds of the cache as a whole: laws that relate several actions, or the stages of a
//! request, to each other.
//!
//! Each action is given by the relation that the function performing it guarantees between the
//! entries before it, the entries after it, and its outcome. `retains` tells whether the backing
//! keeps entries until they are removed; where it does not, an entry may be missing at any time.
//!
//! The modules below this one speak of the calls themselves: [`store`] says what each action does
//! to the entries, [`loads`] follows loads to what comes after them, [`course`] follows requests
//! and reads their ends, [`requests`] says what is asked for, [`start`] what a cache starts with,
//! and [`errors`] what an error tells.

use crate::backing::HashMapBacking;
use crate::cache_api::{
    CacheEntry, CacheLoadingError, CacheResult, CacheTask, LoadingCache, ResultMeta,
};
use crate::exchange::{
    reaction, Done, Effect, Event, Meta, Optional, Presence, Reading, Stage, Value,
};
use crate::internal_cache::{
    founders, gets, held, is_loading, judges_entry, lands, looks_up, performs, removes, removes_if,
    sets, starts_load, updates, updates_in_place, value_at, CacheAction, Deferred, Outcome,
};
use crate::loading::{end_load, join_load, LoadEnd};
use std::fmt::Debug;
use std::hash::Hash;
use vstd::prelude::*;

pub mod course;
pub mod errors;
pub mod loads;
pub mod requests;
pub mod start;
pub mod store;

verus! {

/// A value that was set is what a look finds: it finds no other, and it finds it unless the
/// backing has evicted it.
pub proof fn law_look_after_set<K, V: Clone, E: Debug>(
    before: Map<K, CacheEntry<V, E>>,
    set: Map<K, CacheEntry<V, E>>,
    after: Map<K, CacheEntry<V, E>>,
    retains: bool,
    key: K,
    value: V,
    previous: CacheResult<V, E>,
    r: CacheResult<V, E>,
)
    requires
        sets(before, set, retains, key, value, previous),
        looks_up(set, after, retains, key, r),
    ensures
        match r {
            CacheResult::Found(copy) => cloned(value, copy),
            CacheResult::Nothing => !retains,
            CacheResult::Loading(_) => false,
        },
{
}

/// A value that was set is handed out by the next action that sets or removes the key.
pub proof fn law_previous_value<K, V, E: Debug>(
    before: Map<K, CacheEntry<V, E>>,
    set: Map<K, CacheEntry<V, E>>,
    after: Map<K, CacheEntry<V, E>>,
    retains: bool,
    key: K,
    value: V,
    next: V,
    previous: CacheResult<V, E>,
    r: CacheResult<V, E>,
)
    requires
        sets(before, set, retains, key, value, previous),
        sets(set, after, retains, key, next, r) || removes(set, after, retains, key, r),
    ensures
        r == CacheResult::<V, E>::Found(value) || !retains && r == CacheResult::<V, E>::Nothing,
{
}

/// A value that was set while the key was being loaded stays, however the load ends.
pub proof fn law_set_overrides_load<K, V, E: Debug>(
    before: Map<K, CacheEntry<V, E>>,
    set: Map<K, CacheEntry<V, E>>,
    after: Map<K, CacheEntry<V, E>>,
    retains: bool,
    key: K,
    value: V,
    loaded: V,
    previous: CacheResult<V, E>,
)
    requires
        is_loading(before, key),
        sets(before, set, retains, key, value, previous),
        lands(set, after, retains, key, loaded) || founders(set, after, retains, key),
    ensures
        after.get(key) == Some(CacheEntry::<V, E>::Loaded(value)) || !retains && after.get(
            key,
        ) is None,
        previous == CacheResult::<V, E>::Nothing,
{
}

/// The key that an action is about, if it is about one.
pub open spec fn subject<K, V, U, M, P>(action: CacheAction<K, V, U, M, P>) -> Option<K> {
    match action {
        CacheAction::GetIfPresent(key) => Some(key),
        CacheAction::Get(key) => Some(key),
        CacheAction::Put(key, _) => Some(key),
        CacheAction::Update(key, _, _) => Some(key),
        CacheAction::UpdateMut(key, _, _) => Some(key),
        CacheAction::Remove(key) => Some(key),
        CacheAction::RemoveIf(_) => None,
        CacheAction::Clear() => None,
        CacheAction::SetAndUnblock(key, _) => Some(key),
        CacheAction::Unblock(key) => Some(key),
    }
}

/// Whether an action, with this outcome, has `key` loaded.
pub open spec fn has_loaded<K, V, E: Debug, U, M, P>(
    action: CacheAction<K, V, U, M, P>,
    r: Outcome<K, V, E, U, M>,
    key: K,
) -> bool {
    subject(action) == Some(key) && r is Load
}

/// A key is loaded once: as soon as one action has it loaded, every request for it joins that
/// load, and leaves it as it is for the next.
pub proof fn law_one_load_at_a_time<
    K: Clone,
    V: Clone,
    E: Debug,
    U: FnOnce(V) -> V,
    M,
    P: Fn((&K, Option<&V>)) -> bool,
>(
    before: Map<K, CacheEntry<V, E>>,
    loading: Map<K, CacheEntry<V, E>>,
    after: Map<K, CacheEntry<V, E>>,
    action: CacheAction<K, V, U, M, P>,
    key: K,
    started: Outcome<K, V, E, U, M>,
    r: Outcome<K, V, E, U, M>,
)
    requires
        performs(before, loading, true, action, started),
        has_loaded(action, started, key),
        gets(loading, after, true, key, r),
    ensures
        r == (Outcome::<K, V, E, U, M>::Join {
            key,
            waiter: started->Load_waiter,
            deferred: None,
        }),
        after == loading,
{
}

/// The value that a load ended with is what requests for the key get from then on.
pub proof fn law_get_after_load<
    K: Clone,
    V: Clone,
    E: Debug,
    U: FnOnce(V) -> V,
    M,
    P: Fn((&K, Option<&V>)) -> bool,
>(
    before: Map<K, CacheEntry<V, E>>,
    loading: Map<K, CacheEntry<V, E>>,
    loaded: Map<K, CacheEntry<V, E>>,
    after: Map<K, CacheEntry<V, E>>,
    action: CacheAction<K, V, U, M, P>,
    key: K,
    value: V,
    started: Outcome<K, V, E, U, M>,
    r: Outcome<K, V, E, U, M>,
)
    requires
        performs(before, loading, true, action, started),
        has_loaded(action, started, key),
        lands(loading, loaded, true, key, value),
        gets(loaded, after, true, key, r),
    ensures
        r matches Outcome::Respond(CacheResult::Found(copy)) && cloned(value, copy),
        after == loaded,
{
}

/// After a load that failed, the next request for the key has it loaded again.
pub proof fn law_get_after_failed_load<
    K: Clone,
    V: Clone,
    E: Debug,
    U: FnOnce(V) -> V,
    M,
    P: Fn((&K, Option<&V>)) -> bool,
>(
    before: Map<K, CacheEntry<V, E>>,
    loading: Map<K, CacheEntry<V, E>>,
    failed: Map<K, CacheEntry<V, E>>,
    after: Map<K, CacheEntry<V, E>>,
    retains: bool,
    action: CacheAction<K, V, U, M, P>,
    key: K,
    started: Outcome<K, V, E, U, M>,
    r: Outcome<K, V, E, U, M>,
)
    requires
        performs(before, loading, retains, action, started),
        has_loaded(action, started, key),
        founders(loading, failed, retains, key),
        gets(failed, after, retains, key, r),
    ensures
        starts_load(failed, after, retains, key, None, r),
{
}

/// A key that was removed is not found, and a request for it has it loaded.
pub proof fn law_gone_after_remove<K: Clone, V: Clone, E: Debug, U, M>(
    before: Map<K, CacheEntry<V, E>>,
    removed: Map<K, CacheEntry<V, E>>,
    after: Map<K, CacheEntry<V, E>>,
    retains: bool,
    key: K,
    previous: CacheResult<V, E>,
    look: CacheResult<V, E>,
    got: Outcome<K, V, E, U, M>,
)
    requires
        removes(before, removed, retains, key, previous),
    ensures
        looks_up(removed, after, retains, key, look) ==> look == CacheResult::<V, E>::Nothing,
        gets(removed, after, retains, key, got) ==> starts_load(
            removed,
            after,
            retains,
            key,
            None,
            got,
        ),
{
}

/// A key that was removed while it was being loaded does not come back with the end of the load.
pub proof fn law_remove_overrides_load<K, V, E: Debug>(
    before: Map<K, CacheEntry<V, E>>,
    removed: Map<K, CacheEntry<V, E>>,
    after: Map<K, CacheEntry<V, E>>,
    retains: bool,
    key: K,
    loaded: V,
    previous: CacheResult<V, E>,
)
    requires
        is_loading(before, key),
        removes(before, removed, retains, key, previous),
        lands(removed, after, retains, key, loaded),
    ensures
        after.get(key) is None,
        previous == CacheResult::<V, E>::Nothing,
{
}

/// After `Clear` no key is found, and a request for any key has it loaded.
pub proof fn law_gone_after_clear<
    K: Clone,
    V: Clone,
    E: Debug,
    U: FnOnce(V) -> V,
    M,
    P: Fn((&K, Option<&V>)) -> bool,
>(
    before: Map<K, CacheEntry<V, E>>,
    cleared: Map<K, CacheEntry<V, E>>,
    after: Map<K, CacheEntry<V, E>>,
    retains: bool,
    key: K,
    r: Outcome<K, V, E, U, M>,
    look: CacheResult<V, E>,
    got: Outcome<K, V, E, U, M>,
)
    requires
        performs(before, cleared, retains, CacheAction::<K, V, U, M, P>::Clear(), r),
    ensures
        looks_up(cleared, after, retains, key, look) ==> look == CacheResult::<V, E>::Nothing,
        gets(cleared, after, retains, key, got) ==> starts_load(
            cleared,
            after,
            retains,
            key,
            None,
            got,
        ),
{
}

/// An action on one key leaves the entries of all others as they are, but for what the backing
/// evicts.
pub proof fn law_other_keys_untouched<
    K: Clone,
    V: Clone,
    E: Debug,
    U: FnOnce(V) -> V,
    M,
    P: Fn((&K, Option<&V>)) -> bool,
>(
    before: Map<K, CacheEntry<V, E>>,
    after: Map<K, CacheEntry<V, E>>,
    retains: bool,
    action: CacheAction<K, V, U, M, P>,
    r: Outcome<K, V, E, U, M>,
    other: K,
)
    requires
        performs(before, after, retains, action, r),
        subject(action) is Some,
        subject(action) != Some(other),
    ensures
        after.get(other) == before.get(other) || !retains && after.get(other) is None,
{
}

/// Whether an action takes away the entry of `key`: because it removes the key, or because the
/// load of the key failed.
pub open spec fn discards<K, V, E: Debug, U, M, P: Fn((&K, Option<&V>)) -> bool>(
    before: Map<K, CacheEntry<V, E>>,
    action: CacheAction<K, V, U, M, P>,
    key: K,
) -> bool {
    match action {
        CacheAction::Remove(gone) => gone == key,
        CacheAction::Unblock(failed) => failed == key && is_loading(before, key),
        CacheAction::RemoveIf(predicate) => judges_entry(&predicate, key, before[key], true),
        CacheAction::Clear() => true,
        _ => false,
    }
}

/// In a backing that retains, a key that has an entry keeps one until an action discards it, and
/// no request has it loaded in the meantime.
pub proof fn law_kept_until_discarded<
    K: Clone,
    V: Clone,
    E: Debug,
    U: FnOnce(V) -> V,
    M,
    P: Fn((&K, Option<&V>)) -> bool,
>(
    before: Map<K, CacheEntry<V, E>>,
    after: Map<K, CacheEntry<V, E>>,
    action: CacheAction<K, V, U, M, P>,
    r: Outcome<K, V, E, U, M>,
    key: K,
)
    requires
        performs(before, after, true, action, r),
        before.contains_key(key),
    ensures
        after.contains_key(key) || discards(before, action, key),
        !has_loaded(action, r, key),
{
}

/// However many actions are performed, in a backing that retains: once a key has an entry, no
/// request has it loaded until an action discards the entry.
pub proof fn law_not_loaded_while_there<
    K: Clone,
    V: Clone,
    E: Debug,
    U: FnOnce(V) -> V,
    M,
    P: Fn((&K, Option<&V>)) -> bool,
>(
    states: Seq<Map<K, CacheEntry<V, E>>>,
    actions: Seq<CacheAction<K, V, U, M, P>>,
    outcomes: Seq<Outcome<K, V, E, U, M>>,
    key: K,
    first: int,
    next: int,
)
    requires
        0 <= first <= next < actions.len(),
        actions.len() == outcomes.len(),
        states.len() == actions.len() + 1,
        forall|i: int|
            0 <= i < actions.len() ==> #[trigger] performs(
                states[i],
                states[i + 1],
                true,
                actions[i],
                outcomes[i],
            ),
        states[first].contains_key(key),
        forall|i: int|
            first <= i < next ==> !(#[trigger] discards(states[i], actions[i], key)),
    ensures
        states[next].contains_key(key),
        !has_loaded(actions[next], outcomes[next], key),
    decreases next - first,
{
    if first < next {
        law_not_loaded_while_there(states, actions, outcomes, key, first, next - 1);
        let last = next - 1;
        assert(performs(states[last], states[last + 1], true, actions[last], outcomes[last]));
        assert(!discards(states[last], actions[last], key));
        law_kept_until_discarded(
            states[last],
            states[last + 1],
            actions[last],
            outcomes[last],
            key,
        );
    }
    assert(performs(states[next], states[next + 1], true, actions[next], outcomes[next]));
    law_kept_until_discarded(states[next], states[next + 1], actions[next], outcomes[next], key);
}

/// However many actions are performed, in a backing that retains: a key that an action has loaded
/// is not loaded a second time, unless an action in between discards its entry.
pub proof fn law_loaded_at_most_once<
    K: Clone,
    V: Clone,
    E: Debug,
    U: FnOnce(V) -> V,
    M,
    P: Fn((&K, Option<&V>)) -> bool,
>(
    states: Seq<Map<K, CacheEntry<V, E>>>,
    actions: Seq<CacheAction<K, V, U, M, P>>,
    outcomes: Seq<Outcome<K, V, E, U, M>>,
    key: K,
    first: int,
    next: int,
)
    requires
        0 <= first < next < actions.len(),
        actions.len() == outcomes.len(),
        states.len() == actions.len() + 1,
        forall|i: int|
            0 <= i < actions.len() ==> #[trigger] performs(
                states[i],
                states[i + 1],
                true,
                actions[i],
                outcomes[i],
            ),
        has_loaded(actions[first], outcomes[first], key),
        has_loaded(actions[next], outcomes[next], key),
    ensures
        exists|i: int| first < i < next && #[trigger] discards(states[i], actions[i], key),
{
    assert(performs(states[first], states[first + 1], true, actions[first], outcomes[first]));
    if forall|i: int| first < i < next ==> !(#[trigger] discards(states[i], actions[i], key)) {
        law_not_loaded_while_there(states, actions, outcomes, key, first + 1, next);
    }
}

/// An update that may load has a missing key loaded, and waits for a load that is under way; it
/// is then still to be made. Until then there is no change but that the load is on record.
pub proof fn law_update_waits_for_load<
    K: Clone,
    V: Clone,
    E: Debug,
    U: FnOnce(V) -> V,
    M,
    P: Fn((&K, Option<&V>)) -> bool,
>(
    before: Map<K, CacheEntry<V, E>>,
    after: Map<K, CacheEntry<V, E>>,
    action: CacheAction<K, V, U, M, P>,
    key: K,
    deferred: Deferred<U, M>,
    r: Outcome<K, V, E, U, M>,
)
    requires
        action == (match deferred {
            Deferred::Update(update_fn) => CacheAction::<K, V, U, M, P>::Update(
                key,
                update_fn,
                true,
            ),
            Deferred::UpdateMut(update_fn) => CacheAction::UpdateMut(key, update_fn, true),
        }),
        performs(before, after, true, action, r),
        held(before, key) is None,
    ensures
        match before.get(key) {
            Some(CacheEntry::Loading(waiter)) => after == before && r == (Outcome::Join {
                key,
                waiter,
                deferred: Some(deferred),
            }),
            _ => starts_load(before, after, true, key, Some(deferred), r),
        },
{
}

/// An update that waited for a load is made on the value that was set in the meantime, not on
/// the one that was loaded, and also where nothing could be loaded.
pub proof fn law_update_prefers_set_value<K: Clone, V: Clone, E: Debug, U: FnOnce(V) -> V, M>(
    before: Map<K, CacheEntry<V, E>>,
    set: Map<K, CacheEntry<V, E>>,
    loaded: Map<K, CacheEntry<V, E>>,
    after: Map<K, CacheEntry<V, E>>,
    key: K,
    value: V,
    discarded: V,
    update_fn: U,
    previous: CacheResult<V, E>,
    r: Outcome<K, V, E, U, M>,
)
    requires
        is_loading(before, key),
        sets(before, set, true, key, value, previous),
        lands(set, loaded, true, key, discarded) || founders(set, loaded, true, key),
        updates(loaded, after, true, key, update_fn, false, r),
    ensures
        r matches Outcome::Respond(CacheResult::Found(updated)) && {
            &&& exists|copy: V| #[trigger]
                cloned(value, copy) && call_ensures(update_fn, (copy,), updated)
            &&& exists|kept: V| #[trigger]
                cloned(updated, kept) && after == before.insert(key, CacheEntry::Loaded(kept))
        },
{
}

/// An update that waited for a load is made on the value that was loaded, where no other was set.
pub proof fn law_update_of_loaded_value<K: Clone, V: Clone, E: Debug, U: FnOnce(V) -> V, M>(
    before: Map<K, CacheEntry<V, E>>,
    loaded: Map<K, CacheEntry<V, E>>,
    after: Map<K, CacheEntry<V, E>>,
    key: K,
    value: V,
    update_fn: U,
    r: Outcome<K, V, E, U, M>,
)
    requires
        is_loading(before, key),
        lands(before, loaded, true, key, value),
        updates(loaded, after, true, key, update_fn, false, r),
    ensures
        r matches Outcome::Respond(CacheResult::Found(updated)) && {
            &&& exists|copy: V| #[trigger]
                cloned(value, copy) && call_ensures(update_fn, (copy,), updated)
            &&& exists|kept: V| #[trigger]
                cloned(updated, kept) && after == before.insert(key, CacheEntry::Loaded(kept))
        },
{
}

/// An update in place that waited for a load is made on the value that the key has by then: one
/// that was set in the meantime, or else the one that was loaded.
pub proof fn law_update_mut_after_load<K: Clone, V: Clone, E: Debug, U, M>(
    before: Map<K, CacheEntry<V, E>>,
    set: Map<K, CacheEntry<V, E>>,
    loaded: Map<K, CacheEntry<V, E>>,
    after: Map<K, CacheEntry<V, E>>,
    key: K,
    value: V,
    discarded: V,
    update_fn: M,
    load: bool,
    previous: CacheResult<V, E>,
    r: Outcome<K, V, E, U, M>,
)
    requires
        is_loading(before, key),
        lands(before, loaded, true, key, value) || (sets(before, set, true, key, value, previous)
            && (lands(set, loaded, true, key, discarded) || founders(set, loaded, true, key))),
        updates_in_place(loaded, after, true, key, update_fn, load, r),
    ensures
        value_at(loaded, key) == value,
        r matches Outcome::Respond(CacheResult::Found(updated)) && exists|kept: V| #[trigger]
            cloned(updated, kept) && after == before.insert(key, CacheEntry::Loaded(kept)),
{
}

/// An update that may not load is ignored where the key has no value, be it missing or still
/// being loaded.
pub proof fn law_update_if_exists_ignored<K: Clone, V: Clone, E: Debug, U: FnOnce(V) -> V, M>(
    before: Map<K, CacheEntry<V, E>>,
    after: Map<K, CacheEntry<V, E>>,
    key: K,
    update_fn: U,
    r: Outcome<K, V, E, U, M>,
)
    requires
        before.get(key) is None || is_loading(before, key),
        updates(before, after, true, key, update_fn, false, r),
    ensures
        r == Outcome::<K, V, E, U, M>::Respond(CacheResult::Nothing),
        after == before,
{
}

/// An update in place that may not load is ignored where the key is missing, and waits for the
/// load where the key is being loaded.
pub proof fn law_update_mut_if_exists<K: Clone, V: Clone, E: Debug, U, M>(
    before: Map<K, CacheEntry<V, E>>,
    after: Map<K, CacheEntry<V, E>>,
    key: K,
    update_fn: M,
    r: Outcome<K, V, E, U, M>,
)
    requires
        before.get(key) is None || is_loading(before, key),
        updates_in_place(before, after, true, key, update_fn, false, r),
    ensures
        after == before,
        match before.get(key) {
            None => r == Outcome::<K, V, E, U, M>::Respond(CacheResult::Nothing),
            Some(CacheEntry::Loading(waiter)) => r == (Outcome::<K, V, E, U, M>::Join {
                key,
                waiter,
                deferred: Some(Deferred::UpdateMut(update_fn)),
            }),
            Some(CacheEntry::Loaded(_)) => false,
        },
{
}

/// Where the predicate answers by the key and the value alone, removing what it accepts leaves
/// exactly the entries that it rejects.
pub proof fn law_remove_if_is_exact<K, V, E: Debug, P: Fn((&K, Option<&V>)) -> bool>(
    before: Map<K, CacheEntry<V, E>>,
    after: Map<K, CacheEntry<V, E>>,
    predicate: P,
    accepts: spec_fn(K, Option<V>) -> bool,
)
    requires
        removes_if(before, after, true, &predicate),
        forall|key: K, entry: CacheEntry<V, E>, verdict: bool| #[trigger]
            judges_entry(&predicate, key, entry, verdict) ==> verdict == accepts(
                key,
                entry.value(),
            ),
    ensures
        after == before.restrict(Set::new(|key: K| !accepts(key, before[key].value()))),
{
    let rest = before.restrict(Set::new(|key: K| !accepts(key, before[key].value())));
    assert forall|key: K| after.contains_key(key) == rest.contains_key(key) by {
        if before.contains_key(key) && !after.contains_key(key) {
            assert(judges_entry(&predicate, key, before[key], true));
        }
        if after.contains_key(key) {
            assert(judges_entry(&predicate, key, before[key], false));
        }
    }
    assert(after =~= rest);
}

/// How many events can still happen to a request at `stage`.
pub open spec fn events_left(stage: Stage) -> nat {
    match stage {
        Stage::Submitting => 3,
        Stage::AwaitingResponse => 2,
        Stage::AwaitingLoad => 1,
        Stage::Finished => 0,
    }
}

/// Every event brings a request closer to its end.
pub proof fn law_requests_end<V, E: Debug>(event: Event<V, E>)
    ensures
        events_left(reaction(event).stage()) < events_left(event.stage()),
{
}

/// A value counts as cached exactly if the cache answered with it rather than with a load.
pub proof fn law_cached_means_found<V, E: Debug>(event: Event<V, E>, meta: ResultMeta<V>)
    requires
        reaction(event) == Effect::<V, E>::Finish(Ok(Some(meta))),
    ensures
        meta.cached <==> event == Event::<V, E>::Responded(Ok(CacheResult::Found(meta.result))),
        !meta.cached <==> event == Event::<V, E>::Joined(Ok(Ok(meta.result))),
{
}

/// A request that demands a value ends in a value or an error: whatever the cache answers other
/// than that it has nothing, and whatever happens to the request.
pub proof fn law_demanded_value_is_there<V, E: Debug>(
    event: Event<V, E>,
    end: Result<Option<ResultMeta<V>>, CacheLoadingError<E>>,
)
    requires
        event != Event::<V, E>::Responded(Ok(CacheResult::Nothing)),
        reaction(event) == Effect::Finish(end),
    ensures
        <Value as Reading<V, E>>::admits(end),
        <Meta as Reading<V, E>>::admits(end),
{
}

/// A key exists in the cache exactly if a look finds it.
pub proof fn law_exists_means_present<V, E: Debug>(
    end: Result<Option<ResultMeta<V>>, CacheLoadingError<E>>,
)
    ensures
        <Presence as Reading<V, E>>::reads(end) == match <Optional as Reading<V, E>>::reads(end) {
            Ok(value) => Ok::<bool, CacheLoadingError<E>>(value is Some),
            Err(error) => Err(error),
        },
{
}

/// A request with meta information gives the same value, or the same error, as one without.
pub proof fn law_meta_agrees<V, E: Debug>(
    end: Result<Option<ResultMeta<V>>, CacheLoadingError<E>>,
)
    requires
        <Meta as Reading<V, E>>::admits(end),
    ensures
        <Value as Reading<V, E>>::admits(end),
        <Value as Reading<V, E>>::reads(end) == match <Meta as Reading<V, E>>::reads(end) {
            Ok(meta) => Ok::<V, CacheLoadingError<E>>(meta.result),
            Err(error) => Err(error),
        },
{
}

/// Whether a request ends with `end` because the cache performed its action with outcome `r`
/// and answered at once.
pub open spec fn answered<K, V, E: Debug, U, M>(
    r: Outcome<K, V, E, U, M>,
    end: Result<Option<ResultMeta<V>>, CacheLoadingError<E>>,
) -> bool {
    r matches Outcome::Respond(answer) && reaction(Event::<V, E>::Responded(Ok(answer)))
        == Effect::<V, E>::Finish(end)
}

/// `get` and `get_with_meta` of a key that has a value are answered at once, with that value, and
/// count it as cached.
pub proof fn law_get_of_held_value<
    K: Clone,
    V: Clone,
    E: Debug,
    U: FnOnce(V) -> V,
    M,
    P: Fn((&K, Option<&V>)) -> bool,
>(
    before: Map<K, CacheEntry<V, E>>,
    after: Map<K, CacheEntry<V, E>>,
    key: K,
    r: Outcome<K, V, E, U, M>,
    end: Result<Option<ResultMeta<V>>, CacheLoadingError<E>>,
)
    requires
        performs(before, after, true, CacheAction::<K, V, U, M, P>::Get(key), r),
        held(before, key) is Some,
    ensures
        r is Respond,
        answered(r, end) ==> {
            &&& <Value as Reading<V, E>>::reads(end) matches Ok(value) && cloned(
                held(before, key).unwrap(),
                value,
            )
            &&& <Meta as Reading<V, E>>::reads(end) matches Ok(meta) && meta.cached && cloned(
                held(before, key).unwrap(),
                meta.result,
            )
        },
{
}

/// `get_if_present` gives the value that the key has, or none, and `exists` tells which.
pub proof fn law_get_if_present_and_exists<
    K: Clone,
    V: Clone,
    E: Debug,
    U: FnOnce(V) -> V,
    M,
    P: Fn((&K, Option<&V>)) -> bool,
>(
    before: Map<K, CacheEntry<V, E>>,
    after: Map<K, CacheEntry<V, E>>,
    key: K,
    r: Outcome<K, V, E, U, M>,
    end: Result<Option<ResultMeta<V>>, CacheLoadingError<E>>,
)
    requires
        performs(before, after, true, CacheAction::<K, V, U, M, P>::GetIfPresent(key), r),
    ensures
        after == before,
        r is Respond,
        answered(r, end) ==> {
            &&& <Optional as Reading<V, E>>::reads(end) matches Ok(found) && match held(
                before,
                key,
            ) {
                Some(value) => found is Some && cloned(value, found.unwrap()),
                None => found is None,
            }
            &&& <Presence as Reading<V, E>>::reads(end) == Ok::<bool, CacheLoadingError<E>>(
                held(before, key) is Some,
            )
        },
{
}

/// `set` and `remove` give the value that the key had, or none.
pub proof fn law_set_and_remove_give_previous_value<
    K: Clone,
    V: Clone,
    E: Debug,
    U: FnOnce(V) -> V,
    M,
    P: Fn((&K, Option<&V>)) -> bool,
>(
    before: Map<K, CacheEntry<V, E>>,
    after: Map<K, CacheEntry<V, E>>,
    action: CacheAction<K, V, U, M, P>,
    key: K,
    value: V,
    r: Outcome<K, V, E, U, M>,
    end: Result<Option<ResultMeta<V>>, CacheLoadingError<E>>,
)
    requires
        performs(before, after, true, action, r),
        action == CacheAction::<K, V, U, M, P>::Put(key, value) || action == CacheAction::<
            K,
            V,
            U,
            M,
            P,
        >::Remove(key),
    ensures
        r is Respond,
        answered(r, end) ==> <Optional as Reading<V, E>>::reads(end) == Ok::<
            Option<V>,
            CacheLoadingError<E>,
        >(held(before, key)),
{
}

/// `remove_if` and `clear` never end in an error once the cache has performed them.
pub proof fn law_remove_if_and_clear_succeed<
    K: Clone,
    V: Clone,
    E: Debug,
    U: FnOnce(V) -> V,
    M,
    P: Fn((&K, Option<&V>)) -> bool,
>(
    before: Map<K, CacheEntry<V, E>>,
    after: Map<K, CacheEntry<V, E>>,
    retains: bool,
    action: CacheAction<K, V, U, M, P>,
    r: Outcome<K, V, E, U, M>,
    end: Result<Option<ResultMeta<V>>, CacheLoadingError<E>>,
)
    requires
        performs(before, after, retains, action, r),
        action is RemoveIf || action is Clear,
    ensures
        r is Respond,
        answered(r, end) ==> <Done as Reading<V, E>>::reads(end) == Ok::<
            (),
            CacheLoadingError<E>,
        >(()),
{
}

/// An update of a key that has a value is answered at once with the updated value, which is what
/// a look finds from then on.
pub proof fn law_update_of_held_value<
    K: Clone,
    V: Clone,
    E: Debug,
    U: FnOnce(V) -> V,
    M,
    P: Fn((&K, Option<&V>)) -> bool,
>(
    before: Map<K, CacheEntry<V, E>>,
    updated: Map<K, CacheEntry<V, E>>,
    after: Map<K, CacheEntry<V, E>>,
    key: K,
    update_fn: U,
    load: bool,
    r: Outcome<K, V, E, U, M>,
    end: Result<Option<ResultMeta<V>>, CacheLoadingError<E>>,
    look: CacheResult<V, E>,
)
    requires
        held(before, key) is Some,
        performs(
            before,
            updated,
            true,
            CacheAction::<K, V, U, M, P>::Update(key, update_fn, load),
            r,
        ),
        answered(r, end),
        looks_up(updated, after, true, key, look),
    ensures
        <Value as Reading<V, E>>::reads(end) matches Ok(value) && {
            &&& <Optional as Reading<V, E>>::reads(end) == Ok::<Option<V>, CacheLoadingError<E>>(
                Some(value),
            )
            &&& exists|copy: V| #[trigger]
                cloned(held(before, key).unwrap(), copy) && call_ensures(
                    update_fn,
                    (copy,),
                    value,
                )
            &&& look matches CacheResult::Found(copy) && exists|kept: V| #[trigger]
                cloned(value, kept) && cloned(kept, copy)
        },
{
    let value = r->Respond_0->Found_0;
    assert(held(before, key).unwrap() == value_at(before, key));
    let copy = choose|copy: V| #[trigger]
        cloned(value_at(before, key), copy) && call_ensures(update_fn, (copy,), value);
    assert(cloned(held(before, key).unwrap(), copy));
    let kept = value_at(updated, key);
    assert(cloned(value, kept) && cloned(kept, look->Found_0));
}

/// An update in place of a key that has a value is answered at once with the value that the
/// function left behind, which is what a look finds from then on.
pub proof fn law_update_mut_of_held_value<
    K: Clone,
    V: Clone,
    E: Debug,
    U: FnOnce(V) -> V,
    M: FnOnce(&mut V),
    P: Fn((&K, Option<&V>)) -> bool,
>(
    before: Map<K, CacheEntry<V, E>>,
    updated: Map<K, CacheEntry<V, E>>,
    after: Map<K, CacheEntry<V, E>>,
    key: K,
    update_fn: M,
    load: bool,
    r: Outcome<K, V, E, U, M>,
    end: Result<Option<ResultMeta<V>>, CacheLoadingError<E>>,
    look: CacheResult<V, E>,
)
    requires
        held(before, key) is Some,
        performs(
            before,
            updated,
            true,
            CacheAction::<K, V, U, M, P>::UpdateMut(key, update_fn, load),
            r,
        ),
        r matches Outcome::Respond(CacheResult::Found(value)) ==> exists|place: &mut V| #[trigger]
            cloned(value_at(before, key), *place) && call_ensures(update_fn, (place,), ())
                && *final(place) == value,
        answered(r, end),
        looks_up(updated, after, true, key, look),
    ensures
        <Value as Reading<V, E>>::reads(end) matches Ok(value) && {
            &&& <Optional as Reading<V, E>>::reads(end) == Ok::<Option<V>, CacheLoadingError<E>>(
                Some(value),
            )
            &&& exists|place: &mut V| #[trigger]
                cloned(held(before, key).unwrap(), *place) && call_ensures(update_fn, (place,), ())
                    && *final(place) == value
            &&& look matches CacheResult::Found(copy) && exists|kept: V| #[trigger]
                cloned(value, kept) && cloned(kept, copy)
        },
{
    let value = r->Respond_0->Found_0;
    assert(held(before, key).unwrap() == value_at(before, key));
    let kept = value_at(updated, key);
    assert(cloned(value, kept) && cloned(kept, look->Found_0));
}

/// An update in place agrees with an update by a function that returns what the other leaves
/// behind: on a value that the key has, on a key that is missing, and on one that is being loaded.
/// They differ in one case. Where the key is being loaded and the update may not load, the one in
/// place waits for the load, and the other is ignored.
///
/// Stated where a clone equals its source.
pub proof fn law_update_mut_agrees_with_update<
    K: Clone,
    V: Clone,
    E: Debug,
    U: FnOnce(V) -> V,
    M: FnOnce(&mut V),
    P: Fn((&K, Option<&V>)) -> bool,
>(
    before: Map<K, CacheEntry<V, E>>,
    replaced: Map<K, CacheEntry<V, E>>,
    changed: Map<K, CacheEntry<V, E>>,
    key: K,
    replace: U,
    change: M,
    result: spec_fn(V) -> V,
    load: bool,
    r: Outcome<K, V, E, U, M>,
    s: Outcome<K, V, E, U, M>,
)
    requires
        forall|value: V, copy: V| #[trigger] cloned(value, copy) ==> copy == value,
        forall|value: V, updated: V| #[trigger]
            call_ensures(replace, (value,), updated) ==> updated == result(value),
        forall|place: &mut V| #[trigger]
            call_ensures(change, (place,), ()) ==> *final(place) == result(*place),
        performs(
            before,
            replaced,
            true,
            CacheAction::<K, V, U, M, P>::Update(key, replace, load),
            r,
        ),
        performs(
            before,
            changed,
            true,
            CacheAction::<K, V, U, M, P>::UpdateMut(key, change, load),
            s,
        ),
        s matches Outcome::Respond(CacheResult::Found(value)) ==> exists|place: &mut V| #[trigger]
            cloned(value_at(before, key), *place) && call_ensures(change, (place,), ())
                && *final(place) == value,
    ensures
        match before.get(key) {
            Some(CacheEntry::Loaded(value)) => {
                &&& r == Outcome::<K, V, E, U, M>::Respond(CacheResult::Found(result(value)))
                &&& s == r
                &&& replaced == before.insert(key, CacheEntry::Loaded(result(value)))
                &&& changed == replaced
            },
            Some(CacheEntry::Loading(waiter)) => {
                &&& r == if load {
                    Outcome::<K, V, E, U, M>::Join {
                        key,
                        waiter,
                        deferred: Some(Deferred::Update(replace)),
                    }
                } else {
                    Outcome::Respond(CacheResult::Nothing)
                }
                &&& s == (Outcome::<K, V, E, U, M>::Join {
                    key,
                    waiter,
                    deferred: Some(Deferred::UpdateMut(change)),
                })
                &&& replaced == before
                &&& changed == before
            },
            None => if load {
                &&& starts_load(before, replaced, true, key, Some(Deferred::Update(replace)), r)
                &&& starts_load(before, changed, true, key, Some(Deferred::UpdateMut(change)), s)
            } else {
                &&& r == Outcome::<K, V, E, U, M>::Respond(CacheResult::Nothing)
                &&& s == r
                &&& replaced == before
                &&& changed == before
            },
        },
{
}

/// An update in place that waited for a load agrees with an update by a function that returns
/// what the other leaves behind: both are made on the value that was set in the meantime, or else
/// on the one that was loaded.
///
/// Stated where a clone equals its source.
pub proof fn law_updates_agree_after_load<
    K: Clone,
    V: Clone,
    E: Debug,
    U: FnOnce(V) -> V,
    M: FnOnce(&mut V),
    P: Fn((&K, Option<&V>)) -> bool,
>(
    before: Map<K, CacheEntry<V, E>>,
    set: Map<K, CacheEntry<V, E>>,
    loaded: Map<K, CacheEntry<V, E>>,
    replaced: Map<K, CacheEntry<V, E>>,
    changed: Map<K, CacheEntry<V, E>>,
    key: K,
    value: V,
    discarded: V,
    replace: U,
    change: M,
    result: spec_fn(V) -> V,
    previous: CacheResult<V, E>,
    r: Outcome<K, V, E, U, M>,
    s: Outcome<K, V, E, U, M>,
)
    requires
        forall|value: V, copy: V| #[trigger] cloned(value, copy) ==> copy == value,
        forall|value: V, updated: V| #[trigger]
            call_ensures(replace, (value,), updated) ==> updated == result(value),
        forall|place: &mut V| #[trigger]
            call_ensures(change, (place,), ()) ==> *final(place) == result(*place),
        is_loading(before, key),
        lands(before, loaded, true, key, value) || (sets(before, set, true, key, value, previous)
            && (lands(set, loaded, true, key, discarded) || founders(set, loaded, true, key))),
        performs(
            loaded,
            replaced,
            true,
            CacheAction::<K, V, U, M, P>::Update(key, replace, false),
            r,
        ),
        performs(
            loaded,
            changed,
            true,
            CacheAction::<K, V, U, M, P>::UpdateMut(key, change, false),
            s,
        ),
        s matches Outcome::Respond(CacheResult::Found(value)) ==> exists|place: &mut V| #[trigger]
            cloned(value_at(loaded, key), *place) && call_ensures(change, (place,), ())
                && *final(place) == value,
    ensures
        r == Outcome::<K, V, E, U, M>::Respond(CacheResult::Found(result(value))),
        s == r,
        replaced == before.insert(key, CacheEntry::Loaded(result(value))),
        changed == replaced,
{
    law_update_mut_agrees_with_update::<K, V, E, U, M, P>(
        loaded,
        replaced,
        changed,
        key,
        replace,
        change,
        result,
        false,
        r,
        s,
    );
}

/// A request whose load is joined gives the value that was loaded, which does not count as
/// cached, or the loader's error.
pub proof fn law_joined_load<V, E: Debug>(
    loaded: Result<V, CacheLoadingError<E>>,
    end: Result<Option<ResultMeta<V>>, CacheLoadingError<E>>,
)
    requires
        reaction(Event::<V, E>::Joined(Ok(loaded))) == Effect::<V, E>::Finish(end),
    ensures
        <Value as Reading<V, E>>::reads(end) == loaded,
        loaded is Ok ==> (<Meta as Reading<V, E>>::reads(end) matches Ok(meta) && !meta.cached),
{
}

/// Whoever joins a load ends as the request that started it: both with the loaded value, or both
/// with the loader's error, the one with the original and the other with a copy.
pub proof fn law_join_ends_as_its_load<K, V: Clone, E: Clone + Debug, U, M, P>(
    key: K,
    loaded: Result<V, E>,
    end: LoadEnd<K, V, E, U, M, P>,
    joined: Result<V, CacheLoadingError<E>>,
)
    requires
        call_ensures(end_load::<K, V, E, U, M, P>, (key, loaded), end),
        call_ensures(join_load::<V, E>, (Ok(end.announcement),), joined),
    ensures
        match loaded {
            Ok(value) => {
                &&& end.result == Ok::<V, CacheLoadingError<E>>(value)
                &&& joined matches Ok(copy) && cloned(value, copy)
            },
            Err(error) => {
                &&& end.result == Err::<V, _>(CacheLoadingError::LoadingError(error))
                &&& joined matches Err(CacheLoadingError::LoadingError(copy)) && cloned(error, copy)
            },
        },
{
}

/// However many join a load, and though each hears but a copy of what was announced: where a clone
/// equals its source, they all end exactly as the request that started it.
pub proof fn law_join_by_copy_ends_as_its_load<K, V: Clone, E: Clone + Debug, U, M, P>(
    key: K,
    loaded: Result<V, E>,
    end: LoadEnd<K, V, E, U, M, P>,
    heard: Result<V, E>,
    joined: Result<V, CacheLoadingError<E>>,
)
    requires
        forall|value: V, copy: V| #[trigger] cloned(value, copy) ==> copy == value,
        forall|error: E, copy: E| #[trigger] cloned(error, copy) ==> copy == error,
        call_ensures(end_load::<K, V, E, U, M, P>, (key, loaded), end),
        match end.announcement {
            Ok(value) => heard matches Ok(copy) && cloned(value, copy),
            Err(error) => heard matches Err(copy) && cloned(error, copy),
        },
        call_ensures(join_load::<V, E>, (Ok(heard),), joined),
    ensures
        joined == end.result,
{
}

/// A cache that is created without a backing is one that is created with an empty
/// [`HashMapBacking`]: it starts with the same entries, keeps them as long, can be relied on for
/// the same keys, and takes as many requests.
pub proof fn law_default_backing<K, V, E, U, M, P>(
    backing: HashMapBacking<K, CacheEntry<V, E>>,
    given: (
        LoadingCache<K, V, E, U, M, P>,
        CacheTask<K, V, E, U, M, P, HashMapBacking<K, CacheEntry<V, E>>>,
    ),
    default: (
        LoadingCache<K, V, E, U, M, P>,
        CacheTask<K, V, E, U, M, P, HashMapBacking<K, CacheEntry<V, E>>>,
    ),
) where K: Eq + Hash + Clone + Send, V: Clone + Send, E: Clone + Send + Debug
    requires
        call_ensures(HashMapBacking::<K, CacheEntry<V, E>>::new, (), backing),
        call_ensures(
            LoadingCache::<K, V, E, U, M, P>::with_backing::<HashMapBacking<K, CacheEntry<V, E>>>,
            (backing,),
            given,
        ),
        call_ensures(LoadingCache::<K, V, E, U, M, P>::new, (), default),
    ensures
        default.1.store@ == given.1.store@,
        default.1.store.retains() == given.1.store.retains(),
        default.1.store.faithful() == given.1.store.faithful(),
        default.0.submits_to().bound() == given.0.submits_to().bound(),
{
}

} // verus!
