//! The cache proper: the entries, and how each action on them is decided.
//!
//! Nothing here waits. Where an action needs a load, or the end of one that is under way, the
//! store says so in an [`Outcome`], and whoever drives it does the waiting.

use crate::backing::{settles, within, CacheBacking};
use crate::cache_api::{CacheEntry, CacheResult};
use std::fmt::Debug;
use std::hash::Hash;
use std::marker::PhantomData;
use vstd::prelude::*;

verus! {

/// What the store can be asked to do.
///
/// `U`, `M` and `P` are the functions that callers pass along: one that returns an updated
/// value, one that changes a value in place, and a predicate on keys and values.
pub enum CacheAction<K, V, U, M, P> {
    /// Look a key up, without loading it.
    GetIfPresent(K),
    /// Look a key up, and load it where it is missing.
    Get(K),
    /// Set the value of a key.
    Put(K, V),
    /// Replace the value of a key; the flag says whether to load it where it is missing.
    Update(K, U, bool),
    /// Change the value of a key; the flag says whether to load it where it is missing.
    UpdateMut(K, M, bool),
    /// Remove a key.
    Remove(K),
    /// Remove every key that the predicate accepts.
    RemoveIf(P),
    /// Remove every key.
    Clear(),
    /// The load of a key ended with this value.
    SetAndUnblock(K, V),
    /// The load of a key failed.
    Unblock(K),
}

/// An update that waits for a load to end.
pub enum Deferred<U, M> {
    /// Replaces the value by what the function returns for it.
    Update(U),
    /// Lets the function change the value.
    UpdateMut(M),
}

/// What is to be done about an action.
#[verifier::reject_recursive_types(V)]
#[verifier::reject_recursive_types(E)]
pub enum Outcome<K, V, E: Debug, U, M> {
    /// Answer with this result.
    Respond(CacheResult<V, E>),
    /// Wait for the end of the load of the key, which is announced once through `waiter`, then see
    /// to the update. The wait has to be subscribed to `waiter` before the next action is
    /// performed: the load may end with that action, and who subscribes later hears nothing of it.
    Join {
        key: K,
        waiter: tokio::sync::broadcast::Sender<Result<V, E>>,
        deferred: Option<Deferred<U, M>>,
    },
    /// Load the key, report and announce how the load ends, the latter through `waiter`, and then
    /// see to the update. The load is on record already: until its end is reported, whoever asks
    /// for the key joins it.
    Load {
        key: K,
        waiter: tokio::sync::broadcast::Sender<Result<V, E>>,
        deferred: Option<Deferred<U, M>>,
    },
}

/// A look at `key` that loads nothing: its value where it has one, and else nothing.
pub open spec fn looks_up<K, V: Clone, E: Debug>(
    before: Map<K, CacheEntry<V, E>>,
    after: Map<K, CacheEntry<V, E>>,
    retains: bool,
    key: K,
    r: CacheResult<V, E>,
) -> bool {
    &&& settles(before, after, retains)
    &&& match after.get(key) {
        Some(CacheEntry::Loaded(value)) => r matches CacheResult::Found(copy) && cloned(
            value,
            copy,
        ),
        _ => r == CacheResult::<V, E>::Nothing,
    }
}

/// The load of `key` is under way already and is to be joined, with `deferred` to follow it.
pub open spec fn joins<K, V, E: Debug, U, M>(
    before: Map<K, CacheEntry<V, E>>,
    after: Map<K, CacheEntry<V, E>>,
    retains: bool,
    key: K,
    deferred: Option<Deferred<U, M>>,
    r: Outcome<K, V, E, U, M>,
) -> bool {
    &&& settles(before, after, retains)
    &&& after.get(key) matches Some(CacheEntry::Loading(waiter)) && r == (Outcome::Join {
        key,
        waiter,
        deferred,
    })
}

/// `key` was missing, and its load is to start, with `deferred` to follow it. The load is on
/// record, with the sender through which its end is to be announced.
pub open spec fn starts_load<K: Clone, V, E: Debug, U, M>(
    before: Map<K, CacheEntry<V, E>>,
    after: Map<K, CacheEntry<V, E>>,
    retains: bool,
    key: K,
    deferred: Option<Deferred<U, M>>,
    r: Outcome<K, V, E, U, M>,
) -> bool {
    &&& r is Load
    &&& cloned(key, r->Load_key)
    &&& r->Load_deferred == deferred
    &&& retains ==> before.get(key) is None
    &&& settles(before.insert(key, CacheEntry::Loading(r->Load_waiter)), after, retains)
}

/// A look at `key` that must end in a value: its value where it has one, the load that is under
/// way where there is one, and else a load that starts.
pub open spec fn gets<K: Clone, V: Clone, E: Debug, U, M>(
    before: Map<K, CacheEntry<V, E>>,
    after: Map<K, CacheEntry<V, E>>,
    retains: bool,
    key: K,
    r: Outcome<K, V, E, U, M>,
) -> bool {
    match r {
        Outcome::Respond(answer) => answer is Found && looks_up(
            before,
            after,
            retains,
            key,
            answer,
        ),
        Outcome::Join { .. } => joins(before, after, retains, key, None, r),
        Outcome::Load { .. } => starts_load(before, after, retains, key, None, r),
    }
}

/// The value that `entries` has for `key`, if there is one.
pub open spec fn held<K, V, E: Debug>(entries: Map<K, CacheEntry<V, E>>, key: K) -> Option<V> {
    match entries.get(key) {
        Some(entry) => entry.value(),
        None => None,
    }
}

/// The value that `key` had is handed out; a backing that evicts may have dropped it already.
pub open spec fn hands_out_value<K, V, E: Debug>(
    before: Map<K, CacheEntry<V, E>>,
    retains: bool,
    key: K,
    r: CacheResult<V, E>,
) -> bool {
    ||| r == CacheResult::<V, E>::of(held(before, key))
    ||| !retains && r == CacheResult::<V, E>::Nothing
}

/// `key` gets `value`, whatever it had, and the value that it had is handed out.
pub open spec fn sets<K, V, E: Debug>(
    before: Map<K, CacheEntry<V, E>>,
    after: Map<K, CacheEntry<V, E>>,
    retains: bool,
    key: K,
    value: V,
    r: CacheResult<V, E>,
) -> bool {
    &&& settles(before.insert(key, CacheEntry::Loaded(value)), after, retains)
    &&& hands_out_value(before, retains, key, r)
}

/// `key` loses what it had, and the value that it had is handed out.
pub open spec fn removes<K, V, E: Debug>(
    before: Map<K, CacheEntry<V, E>>,
    after: Map<K, CacheEntry<V, E>>,
    retains: bool,
    key: K,
    r: CacheResult<V, E>,
) -> bool {
    &&& settles(before.remove(key), after, retains)
    &&& hands_out_value(before, retains, key, r)
}

/// Whether `key` is recorded as being loaded.
pub open spec fn is_loading<K, V, E: Debug>(entries: Map<K, CacheEntry<V, E>>, key: K) -> bool {
    entries.get(key) matches Some(CacheEntry::Loading(_))
}

/// The load of `key` ended with `value`: the key gets it if it is still being loaded, and keeps
/// what it has otherwise.
pub open spec fn lands<K, V, E: Debug>(
    before: Map<K, CacheEntry<V, E>>,
    after: Map<K, CacheEntry<V, E>>,
    retains: bool,
    key: K,
    value: V,
) -> bool {
    ||| is_loading(before, key) && settles(
        before.insert(key, CacheEntry::Loaded(value)),
        after,
        retains,
    )
    ||| !is_loading(after, key) && settles(before, after, retains)
}

/// The load of `key` failed: the key is free again if it is still being loaded, and keeps what
/// it has otherwise.
pub open spec fn founders<K, V, E: Debug>(
    before: Map<K, CacheEntry<V, E>>,
    after: Map<K, CacheEntry<V, E>>,
    retains: bool,
    key: K,
) -> bool {
    ||| is_loading(before, key) && settles(before.remove(key), after, retains)
    ||| !is_loading(after, key) && settles(before, after, retains)
}

/// The value of a key that has one.
pub open spec fn value_at<K, V, E: Debug>(entries: Map<K, CacheEntry<V, E>>, key: K) -> V {
    entries[key]->Loaded_0
}

/// `key` had a value and gets `updated` in its place.
pub open spec fn replaces<K, V: Clone, E: Debug>(
    before: Map<K, CacheEntry<V, E>>,
    after: Map<K, CacheEntry<V, E>>,
    retains: bool,
    key: K,
    updated: V,
) -> bool {
    &&& before.get(key) matches Some(CacheEntry::Loaded(_))
    &&& exists|kept: V| #[trigger]
        cloned(updated, kept) && settles(
            before.insert(key, CacheEntry::Loaded(kept)),
            after,
            retains,
        )
}

/// There is no value of `key` to update yet. An update that may load waits for the load of a
/// missing key; one that may join waits for a load that is under way; any other is ignored.
pub open spec fn puts_off<K: Clone, V, E: Debug, U, M>(
    before: Map<K, CacheEntry<V, E>>,
    after: Map<K, CacheEntry<V, E>>,
    retains: bool,
    key: K,
    deferred: Deferred<U, M>,
    may_load: bool,
    may_join: bool,
    r: Outcome<K, V, E, U, M>,
) -> bool {
    match r {
        Outcome::Respond(answer) => {
            &&& answer == CacheResult::<V, E>::Nothing
            &&& settles(before, after, retains)
            &&& match after.get(key) {
                Some(CacheEntry::Loaded(_)) => false,
                Some(CacheEntry::Loading(_)) => !may_join,
                None => !may_load,
            }
        },
        Outcome::Join { .. } => may_join && joins(
            before,
            after,
            retains,
            key,
            Some(deferred),
            r,
        ),
        Outcome::Load { .. } => may_load && starts_load(
            before,
            after,
            retains,
            key,
            Some(deferred),
            r,
        ),
    }
}

/// An update by a function that returns the updated value.
pub open spec fn updates<K: Clone, V: Clone, E: Debug, U: FnOnce(V) -> V, M>(
    before: Map<K, CacheEntry<V, E>>,
    after: Map<K, CacheEntry<V, E>>,
    retains: bool,
    key: K,
    update_fn: U,
    load: bool,
    r: Outcome<K, V, E, U, M>,
) -> bool {
    match r {
        Outcome::Respond(CacheResult::Found(updated)) => {
            &&& replaces(before, after, retains, key, updated)
            &&& exists|copy: V| #[trigger]
                cloned(value_at(before, key), copy) && call_ensures(update_fn, (copy,), updated)
        },
        _ => puts_off(before, after, retains, key, Deferred::Update(update_fn), load, load, r),
    }
}

/// An update by a function that changes the value in place. How the function comes by the
/// updated value is stated where it is called.
pub open spec fn updates_in_place<K: Clone, V: Clone, E: Debug, U, M>(
    before: Map<K, CacheEntry<V, E>>,
    after: Map<K, CacheEntry<V, E>>,
    retains: bool,
    key: K,
    update_fn: M,
    load: bool,
    r: Outcome<K, V, E, U, M>,
) -> bool {
    match r {
        Outcome::Respond(CacheResult::Found(updated)) => replaces(
            before,
            after,
            retains,
            key,
            updated,
        ),
        _ => puts_off(before, after, retains, key, Deferred::UpdateMut(update_fn), load, true, r),
    }
}

/// Whether `predicate` can be asked about the entry of `key`.
pub open spec fn may_judge_entry<K, V, E: Debug, P: Fn((&K, Option<&V>)) -> bool>(
    predicate: &P,
    key: K,
    entry: CacheEntry<V, E>,
) -> bool {
    match entry {
        CacheEntry::Loaded(value) => call_requires(*predicate, ((&key, Some(&value)),)),
        CacheEntry::Loading(_) => call_requires(*predicate, ((&key, None),)),
    }
}

/// Whether `predicate` can answer `verdict` about the entry of `key`. Of an entry that is being
/// loaded it is shown the key alone.
pub open spec fn judges_entry<K, V, E: Debug, P: Fn((&K, Option<&V>)) -> bool>(
    predicate: &P,
    key: K,
    entry: CacheEntry<V, E>,
    verdict: bool,
) -> bool {
    match entry {
        CacheEntry::Loaded(value) => call_ensures(*predicate, ((&key, Some(&value)),), verdict),
        CacheEntry::Loading(_) => call_ensures(*predicate, ((&key, None),), verdict),
    }
}

/// Every entry that `predicate` accepts is gone, and the others stay unless the backing evicts.
pub open spec fn removes_if<K, V, E: Debug, P: Fn((&K, Option<&V>)) -> bool>(
    before: Map<K, CacheEntry<V, E>>,
    after: Map<K, CacheEntry<V, E>>,
    retains: bool,
    predicate: &P,
) -> bool {
    &&& within(after, before)
    &&& forall|key: K|
        #![trigger after.contains_key(key)]
        after.contains_key(key) ==> judges_entry(predicate, key, before[key], false)
    &&& retains ==> forall|key: K|
        #![trigger before.contains_key(key)]
        #![trigger after.contains_key(key)]
        before.contains_key(key) && !after.contains_key(key) ==> judges_entry(
            predicate,
            key,
            before[key],
            true,
        )
}

impl<K, V, U, M, P> CacheAction<K, V, U, M, P> {
    /// Whether the action is one that must end in a value or an error.
    pub open spec fn demands_value(self) -> bool {
        match self {
            CacheAction::Get(_) => true,
            CacheAction::Update(_, _, load) => load,
            CacheAction::UpdateMut(_, _, load) => load,
            _ => false,
        }
    }
}

/// What an action does.
pub open spec fn performs<
    K: Clone,
    V: Clone,
    E: Debug,
    U: FnOnce(V) -> V,
    M,
    P: Fn((&K, Option<&V>)) -> bool,
>(
    before: Map<K, CacheEntry<V, E>>,
    after: Map<K, CacheEntry<V, E>>,
    retains: bool,
    action: CacheAction<K, V, U, M, P>,
    r: Outcome<K, V, E, U, M>,
) -> bool {
    let nothing = Outcome::<K, V, E, U, M>::Respond(CacheResult::Nothing);
    match action {
        CacheAction::GetIfPresent(key) => r matches Outcome::Respond(answer) && looks_up(
            before,
            after,
            retains,
            key,
            answer,
        ),
        CacheAction::Get(key) => gets(before, after, retains, key, r),
        CacheAction::Put(key, value) => r matches Outcome::Respond(answer) && sets(
            before,
            after,
            retains,
            key,
            value,
            answer,
        ),
        CacheAction::Update(key, update_fn, load) => updates(
            before,
            after,
            retains,
            key,
            update_fn,
            load,
            r,
        ),
        CacheAction::UpdateMut(key, update_fn, load) => updates_in_place(
            before,
            after,
            retains,
            key,
            update_fn,
            load,
            r,
        ),
        CacheAction::Remove(key) => r matches Outcome::Respond(answer) && removes(
            before,
            after,
            retains,
            key,
            answer,
        ),
        CacheAction::RemoveIf(predicate) => r == nothing && removes_if(
            before,
            after,
            retains,
            &predicate,
        ),
        CacheAction::Clear() => r == nothing && after == Map::<K, CacheEntry<V, E>>::empty(),
        CacheAction::SetAndUnblock(key, value) => r == nothing && lands(
            before,
            after,
            retains,
            key,
            value,
        ),
        CacheAction::Unblock(key) => r == nothing && founders(before, after, retains, key),
    }
}

/// The entries of the cache, kept in a backing.
#[verifier::reject_recursive_types(K)]
#[verifier::reject_recursive_types(V)]
#[verifier::reject_recursive_types(E)]
pub struct InternalCacheStore<K, V, E: Debug, B> {
    data: B,
    phantom: PhantomData<(K, V, E)>,
}

impl<K, V, E, B> InternalCacheStore<K, V, E, B> where
    K: Eq + Hash + Clone + Send,
    V: Clone + Send,
    E: Clone + Send + Debug,
    B: CacheBacking<K, CacheEntry<V, E>>,
 {
    /// The entries.
    pub closed spec fn view(&self) -> Map<K, CacheEntry<V, E>> {
        self.data.contents()
    }

    /// Whether the entries can be relied on (see [`CacheBacking::faithful`]).
    pub closed spec fn faithful(&self) -> bool {
        self.data.faithful()
    }

    /// Whether an entry stays until it is removed (see [`CacheBacking::retains`]).
    pub closed spec fn retains(&self) -> bool {
        self.data.retains()
    }

    /// Whether this is the store of `before` after some actions: as reliable, and in a backing
    /// that evicts if that one did.
    pub open spec fn succeeds(&self, before: &Self) -> bool {
        &&& self.faithful()
        &&& self.retains() == before.retains()
    }

    /// Whether `update_fn` can be called on the value of `key`, if it has one; on any value where
    /// the entries cannot be relied on.
    pub open spec fn may_update<U: FnOnce(V) -> V>(&self, key: K, update_fn: U) -> bool {
        forall|copy: V|
            (self.faithful() ==> held(self@, key) is Some && cloned(value_at(self@, key), copy))
                ==> #[trigger] call_requires(update_fn, (copy,))
    }

    /// Whether `update_fn` can be let at the value of `key`, if it has one; at any value where the
    /// entries cannot be relied on.
    pub open spec fn may_update_mut<M: FnOnce(&mut V)>(&self, key: K, update_fn: M) -> bool {
        forall|place: &mut V|
            (self.faithful() ==> held(self@, key) is Some && cloned(value_at(self@, key), *place))
                ==> #[trigger] call_requires(update_fn, (place,))
    }

    /// Whether `predicate` can be asked about every entry; about any entry at all where the
    /// entries cannot be relied on.
    pub open spec fn may_remove_if<P: Fn((&K, Option<&V>)) -> bool>(&self, predicate: P) -> bool {
        forall|key: K, entry: CacheEntry<V, E>|
            (self.faithful() ==> self@.get(key) == Some(entry)) ==> #[trigger] may_judge_entry(
                &predicate,
                key,
                entry,
            )
    }

    /// Whether the function that an action brings along can be called where the action calls it.
    pub open spec fn may_perform<
        U: FnOnce(V) -> V,
        M: FnOnce(&mut V),
        P: Fn((&K, Option<&V>)) -> bool,
    >(&self, action: CacheAction<K, V, U, M, P>) -> bool {
        match action {
            CacheAction::Update(key, update_fn, _) => self.may_update(key, update_fn),
            CacheAction::UpdateMut(key, update_fn, _) => self.may_update_mut(key, update_fn),
            CacheAction::RemoveIf(predicate) => self.may_remove_if(predicate),
            _ => true,
        }
    }

    /// A store whose entries are those of `backing`.
    pub fn new(backing: B) -> (r: Self)
        ensures
            r@ == backing.contents(),
            r.faithful() == backing.faithful(),
            r.retains() == backing.retains(),
    {
        InternalCacheStore { data: backing, phantom: PhantomData }
    }

    /// Looks a key up, without loading it.
    pub fn get_if_present(&mut self, key: K) -> (r: CacheResult<V, E>)
        ensures
            old(self).faithful() ==> {
                &&& final(self).succeeds(old(self))
                &&& looks_up(old(self)@, final(self)@, old(self).retains(), key, r)
            },
    {
        match self.data.get(&key) {
            Some(CacheEntry::Loaded(value)) => CacheResult::Found(value.clone()),
            _ => CacheResult::Nothing,
        }
    }

    /// Records that a key is being loaded, with the sender that `open` makes for the end of the
    /// load, and asks for the load.
    fn start_load<U, M, W: FnOnce() -> tokio::sync::broadcast::Sender<Result<V, E>>>(
        &mut self,
        key: K,
        deferred: Option<Deferred<U, M>>,
        open: W,
    ) -> (r: Outcome<K, V, E, U, M>)
        requires
            call_requires(open, ()),
        ensures
            r is Load,
            cloned(key, r->Load_key),
            r->Load_deferred == deferred,
            call_ensures(open, (), r->Load_waiter),
            old(self).faithful() ==> {
                &&& final(self).succeeds(old(self))
                &&& settles(
                    old(self)@.insert(key, CacheEntry::Loading(r->Load_waiter)),
                    final(self)@,
                    old(self).retains(),
                )
            },
    {
        let waiter = open();
        let copy = key.clone();
        let _ = self.data.set(key, CacheEntry::Loading(waiter.clone()));
        Outcome::Load { key: copy, waiter, deferred }
    }

    /// Looks a key up, and has it loaded where it is neither there nor being loaded. A load is
    /// recorded with the sender that `open` makes.
    pub fn get<U, M, W: FnOnce() -> tokio::sync::broadcast::Sender<Result<V, E>>>(
        &mut self,
        key: K,
        open: W,
    ) -> (r: Outcome<K, V, E, U, M>)
        requires
            call_requires(open, ()),
        ensures
            old(self).faithful() ==> {
                &&& final(self).succeeds(old(self))
                &&& gets(old(self)@, final(self)@, old(self).retains(), key, r)
            },
            r matches Outcome::Respond(answer) ==> answer is Found,
            r is Load ==> call_ensures(open, (), r->Load_waiter),
    {
        match self.data.get(&key) {
            Some(CacheEntry::Loaded(value)) => {
                return Outcome::Respond(CacheResult::Found(value.clone()));
            },
            Some(CacheEntry::Loading(waiter)) => {
                let waiter = waiter.clone();
                return Outcome::Join { key, waiter, deferred: None };
            },
            None => {},
        }
        self.start_load(key, None, open)
    }

    /// Sets the value of a key, whether or not it is being loaded.
    pub fn set(&mut self, key: K, value: V) -> (r: CacheResult<V, E>)
        ensures
            old(self).faithful() ==> {
                &&& final(self).succeeds(old(self))
                &&& sets(old(self)@, final(self)@, old(self).retains(), key, value, r)
            },
    {
        match self.data.set(key, CacheEntry::Loaded(value)) {
            Some(CacheEntry::Loaded(previous)) => CacheResult::Found(previous),
            _ => CacheResult::Nothing,
        }
    }

    /// Records that the load of a key ended with a value.
    pub fn set_and_unblock(&mut self, key: K, value: V) -> (r: CacheResult<V, E>)
        ensures
            old(self).faithful() ==> {
                &&& final(self).succeeds(old(self))
                &&& lands(old(self)@, final(self)@, old(self).retains(), key, value)
            },
            r == CacheResult::<V, E>::Nothing,
    {
        let loading = match self.data.get(&key) {
            Some(CacheEntry::Loading(_)) => true,
            _ => false,
        };
        if loading {
            let _ = self.data.set(key, CacheEntry::Loaded(value));
        }
        CacheResult::Nothing
    }

    /// Records that the load of a key failed.
    pub fn unblock(&mut self, key: K) -> (r: CacheResult<V, E>)
        ensures
            old(self).faithful() ==> {
                &&& final(self).succeeds(old(self))
                &&& founders(old(self)@, final(self)@, old(self).retains(), key)
            },
            r == CacheResult::<V, E>::Nothing,
    {
        let loading = match self.data.get(&key) {
            Some(CacheEntry::Loading(_)) => true,
            _ => false,
        };
        if loading {
            let _ = self.data.remove(&key);
        }
        CacheResult::Nothing
    }

    /// Removes a key.
    pub fn remove(&mut self, key: K) -> (r: CacheResult<V, E>)
        ensures
            old(self).faithful() ==> {
                &&& final(self).succeeds(old(self))
                &&& removes(old(self)@, final(self)@, old(self).retains(), key, r)
            },
    {
        match self.data.remove(&key) {
            Some(CacheEntry::Loaded(previous)) => CacheResult::Found(previous),
            _ => CacheResult::Nothing,
        }
    }

    /// Removes every key.
    pub fn clear(&mut self) -> (r: CacheResult<V, E>)
        ensures
            old(self).faithful() ==> {
                &&& final(self).succeeds(old(self))
                &&& final(self)@ == Map::<K, CacheEntry<V, E>>::empty()
            },
            r == CacheResult::<V, E>::Nothing,
    {
        self.data.clear();
        CacheResult::Nothing
    }

    /// Replaces the value of a key by what a function returns for it. A load is recorded with the
    /// sender that `open` makes.
    pub fn update<
        U: FnOnce(V) -> V,
        M,
        W: FnOnce() -> tokio::sync::broadcast::Sender<Result<V, E>>,
    >(&mut self, key: K, update_fn: U, load: bool, open: W) -> (r: Outcome<K, V, E, U, M>)
        requires
            old(self).may_update(key, update_fn),
            call_requires(open, ()),
        ensures
            old(self).faithful() ==> {
                &&& final(self).succeeds(old(self))
                &&& updates(
                    old(self)@,
                    final(self)@,
                    old(self).retains(),
                    key,
                    update_fn,
                    load,
                    r,
                )
            },
            load ==> (r matches Outcome::Respond(answer) ==> answer is Found),
            r is Load ==> call_ensures(open, (), r->Load_waiter),
    {
        let current = match self.data.get(&key) {
            Some(CacheEntry::Loaded(value)) => Some(value.clone()),
            Some(CacheEntry::Loading(waiter)) => {
                let waiter = waiter.clone();
                return if load {
                    Outcome::Join { key, waiter, deferred: Some(Deferred::Update(update_fn)) }
                } else {
                    Outcome::Respond(CacheResult::Nothing)
                };
            },
            None => None,
        };
        match current {
            Some(current) => {
                assert(old(self).faithful() ==> cloned(value_at(old(self)@, key), current));
                let updated = update_fn(current);
                let kept = updated.clone();
                let _ = self.data.set(key, CacheEntry::Loaded(kept));
                assert(cloned(updated, kept));
                Outcome::Respond(CacheResult::Found(updated))
            },
            None => if load {
                self.start_load(key, Some(Deferred::Update(update_fn)), open)
            } else {
                Outcome::Respond(CacheResult::Nothing)
            },
        }
    }

    /// Lets a function change the value of a key. A load is recorded with the sender that `open`
    /// makes.
    pub fn update_mut<
        U,
        M: FnOnce(&mut V),
        W: FnOnce() -> tokio::sync::broadcast::Sender<Result<V, E>>,
    >(&mut self, key: K, update_fn: M, load: bool, open: W) -> (r: Outcome<K, V, E, U, M>)
        requires
            old(self).may_update_mut(key, update_fn),
            call_requires(open, ()),
        ensures
            old(self).faithful() ==> {
                &&& final(self).succeeds(old(self))
                &&& updates_in_place(
                    old(self)@,
                    final(self)@,
                    old(self).retains(),
                    key,
                    update_fn,
                    load,
                    r,
                )
            },
            old(self).faithful() ==> (r matches Outcome::Respond(CacheResult::Found(updated))
                ==> exists|place: &mut V| #[trigger]
                cloned(value_at(old(self)@, key), *place) && call_ensures(update_fn, (place,), ())
                    && *final(place) == updated),
            load ==> (r matches Outcome::Respond(answer) ==> answer is Found),
            r is Load ==> call_ensures(open, (), r->Load_waiter),
    {
        let current = match self.data.get(&key) {
            Some(CacheEntry::Loaded(value)) => Some(value.clone()),
            Some(CacheEntry::Loading(waiter)) => {
                let waiter = waiter.clone();
                return Outcome::Join {
                    key,
                    waiter,
                    deferred: Some(Deferred::UpdateMut(update_fn)),
                };
            },
            None => None,
        };
        match current {
            Some(value) => {
                let mut current = value;
                let place = &mut current;
                assert(old(self).faithful() ==> cloned(value_at(old(self)@, key), *place));
                update_fn(place);
                let kept = current.clone();
                let _ = self.data.set(key, CacheEntry::Loaded(kept));
                assert(cloned(current, kept));
                Outcome::Respond(CacheResult::Found(current))
            },
            None => if load {
                self.start_load(key, Some(Deferred::UpdateMut(update_fn)), open)
            } else {
                Outcome::Respond(CacheResult::Nothing)
            },
        }
    }

    /// Removes every key that a predicate accepts. The predicate is shown the key and its value,
    /// or the key alone where the value is still being loaded.
    pub fn remove_if<P: Fn((&K, Option<&V>)) -> bool>(&mut self, predicate: P) -> (r: CacheResult<
        V,
        E,
    >)
        requires
            old(self).may_remove_if(predicate),
        ensures
            old(self).faithful() ==> {
                &&& final(self).succeeds(old(self))
                &&& removes_if(old(self)@, final(self)@, old(self).retains(), &predicate)
            },
            r == CacheResult::<V, E>::Nothing,
    {
        let accepts = |mapping: (&K, &CacheEntry<V, E>)| -> (b: bool)
            requires
                may_judge_entry(&predicate, *mapping.0, *mapping.1),
            ensures
                judges_entry(&predicate, *mapping.0, *mapping.1, b),
            {
                match mapping.1 {
                    CacheEntry::Loaded(value) => predicate((mapping.0, Some(value))),
                    CacheEntry::Loading(_) => predicate((mapping.0, None)),
                }
            };
        self.data.remove_if(accepts);
        CacheResult::Nothing
    }

    /// Performs an action. Where the action starts a load, the load is recorded with the sender
    /// that `open` makes.
    pub fn perform<
        U: FnOnce(V) -> V,
        M: FnOnce(&mut V),
        P: Fn((&K, Option<&V>)) -> bool,
        W: FnOnce() -> tokio::sync::broadcast::Sender<Result<V, E>>,
    >(&mut self, action: CacheAction<K, V, U, M, P>, open: W) -> (r: Outcome<K, V, E, U, M>)
        requires
            old(self).may_perform(action),
            call_requires(open, ()),
        ensures
            old(self).faithful() ==> {
                &&& final(self).succeeds(old(self))
                &&& performs(old(self)@, final(self)@, old(self).retains(), action, r)
            },
            old(self).faithful() ==> (action matches CacheAction::UpdateMut(key, update_fn, _) ==> (
            r matches Outcome::Respond(CacheResult::Found(updated)) ==> exists|place: &mut V|
                #[trigger]
                cloned(value_at(old(self)@, key), *place) && call_ensures(update_fn, (place,), ())
                    && *final(place) == updated)),
            action.demands_value() ==> (r matches Outcome::Respond(answer) ==> answer is Found),
            r is Load ==> call_ensures(open, (), r->Load_waiter),
    {
        match action {
            CacheAction::GetIfPresent(key) => Outcome::Respond(self.get_if_present(key)),
            CacheAction::Get(key) => self.get(key, open),
            CacheAction::Put(key, value) => Outcome::Respond(self.set(key, value)),
            CacheAction::Update(key, update_fn, load) => self.update(key, update_fn, load, open),
            CacheAction::UpdateMut(key, update_fn, load) => self.update_mut(
                key,
                update_fn,
                load,
                open,
            ),
            CacheAction::Remove(key) => Outcome::Respond(self.remove(key)),
            CacheAction::RemoveIf(predicate) => Outcome::Respond(self.remove_if(predicate)),
            CacheAction::Clear() => Outcome::Respond(self.clear()),
            CacheAction::SetAndUnblock(key, value) => Outcome::Respond(
                self.set_and_unblock(key, value),
            ),
            CacheAction::Unblock(key) => Outcome::Respond(self.unblock(key)),
        }
    }
}

} // verus!
