use cache_loader_async::backing::{CacheBacking, HashMapBacking};
use cache_loader_async::cache_api::{CacheEntry, CacheResult};
use cache_loader_async::internal_cache::{CacheAction, Deferred, InternalCacheStore, Outcome};
use tokio::sync::broadcast::Sender;

type Entry = CacheEntry<u32, String>;
type Store = InternalCacheStore<String, u32, String, HashMapBacking<String, Entry>>;
type UpdateFn = fn(u32) -> u32;
type UpdateMutFn = fn(&mut u32);
type Predicate = fn((&String, Option<&u32>)) -> bool;
type Action = CacheAction<String, u32, UpdateFn, UpdateMutFn, Predicate>;
type Next = Outcome<String, u32, String, UpdateFn, UpdateMutFn>;

fn key() -> String {
    "key".to_owned()
}

fn store() -> Store {
    InternalCacheStore::new(HashMapBacking::new())
}

fn waiter() -> Sender<Result<u32, String>> {
    tokio::sync::broadcast::channel(1).0
}

fn loading() -> (Store, Sender<Result<u32, String>>) {
    let mut store = store();
    match get(&mut store) {
        Next::Load { waiter, .. } => (store, waiter),
        _ => panic!("a missing key is loaded"),
    }
}

fn add_one(value: u32) -> u32 {
    value + 1
}

fn double(value: &mut u32) {
    *value *= 2;
}

fn found(result: CacheResult<u32, String>) -> Option<u32> {
    match result {
        CacheResult::Found(value) => Some(value),
        CacheResult::Nothing => None,
        CacheResult::Loading(_) => panic!("a store waits for nothing"),
    }
}

fn responded(outcome: Next) -> Option<u32> {
    match outcome {
        Outcome::Respond(result) => found(result),
        Outcome::Join { .. } => panic!("joins a load"),
        Outcome::Load { .. } => panic!("starts a load"),
    }
}

fn perform(store: &mut Store, action: Action) -> Next {
    store.perform(action, waiter)
}

fn get(store: &mut Store) -> Next {
    store.get(key(), waiter)
}

fn update(store: &mut Store, load: bool) -> Next {
    store.update(key(), add_one as UpdateFn, load, waiter)
}

fn update_mut(store: &mut Store, load: bool) -> Next {
    store.update_mut(key(), double as UpdateMutFn, load, waiter)
}

#[test]
fn set_value_is_found() {
    let mut store = store();
    assert_eq!(found(store.get_if_present(key())), None);
    assert_eq!(found(store.set(key(), 5)), None);
    assert_eq!(found(store.get_if_present(key())), Some(5));
    assert_eq!(responded(get(&mut store)), Some(5));
    assert_eq!(found(store.get_if_present("other".to_owned())), None);
}

#[test]
fn set_and_remove_hand_out_the_previous_value() {
    let mut store = store();
    store.set(key(), 5);
    assert_eq!(found(store.set(key(), 6)), Some(5));
    assert_eq!(found(store.remove(key())), Some(6));
    assert_eq!(found(store.remove(key())), None);
    assert_eq!(found(store.get_if_present(key())), None);
}

#[test]
fn missing_key_is_loaded_once() {
    let mut store = store();
    let waiter = match get(&mut store) {
        Next::Load { key, waiter, deferred: None } if key == "key" => waiter,
        _ => panic!("a missing key is loaded"),
    };
    for _ in 0..3 {
        assert!(matches!(
            get(&mut store),
            Next::Join { key, waiter: joined, deferred: None }
                if key == "key" && joined.same_channel(&waiter)
        ));
    }
    assert_eq!(found(store.get_if_present(key())), None);
    assert_eq!(found(store.set_and_unblock(key(), 32)), None);
    assert_eq!(responded(get(&mut store)), Some(32));
}

#[test]
fn failed_load_frees_the_key() {
    let (mut store, _waiter) = loading();
    assert_eq!(found(store.unblock(key())), None);
    assert!(matches!(get(&mut store), Next::Load { .. }));
}

#[test]
fn failed_load_leaves_a_set_value() {
    let (mut store, _waiter) = loading();
    store.set(key(), 5);
    store.unblock(key());
    assert_eq!(found(store.get_if_present(key())), Some(5));
}

#[test]
fn set_overrides_a_load() {
    let (mut store, _waiter) = loading();
    assert_eq!(found(store.set(key(), 5)), None);
    store.set_and_unblock(key(), 32);
    assert_eq!(responded(get(&mut store)), Some(5));
}

#[test]
fn remove_overrides_a_load() {
    let (mut store, _waiter) = loading();
    assert_eq!(found(store.remove(key())), None);
    store.set_and_unblock(key(), 32);
    assert_eq!(found(store.get_if_present(key())), None);
}

#[test]
fn clear_removes_values_and_loads() {
    let (mut store, _waiter) = loading();
    store.set("other".to_owned(), 1);
    assert_eq!(found(store.clear()), None);
    assert!(matches!(get(&mut store), Next::Load { .. }));
    assert_eq!(found(store.get_if_present("other".to_owned())), None);
}

#[test]
fn remove_if_shows_values_and_loads() {
    let (mut store, _waiter) = loading();
    store.set("small".to_owned(), 1);
    store.set("large".to_owned(), 100);
    store.remove_if(|(_, value): (&String, Option<&u32>)| value.map_or(false, |value| *value > 10));
    assert_eq!(found(store.get_if_present("small".to_owned())), Some(1));
    assert_eq!(found(store.get_if_present("large".to_owned())), None);
    assert!(matches!(get(&mut store), Next::Join { .. }));
    store.remove_if(|(key, value): (&String, Option<&u32>)| key == "key" && value.is_none());
    assert!(matches!(get(&mut store), Next::Load { .. }));
    assert_eq!(found(store.get_if_present("small".to_owned())), Some(1));
}

#[test]
fn update_replaces_a_value() {
    let mut store = store();
    store.set(key(), 5);
    assert_eq!(responded(update(&mut store, true)), Some(6));
    assert_eq!(responded(update(&mut store, false)), Some(7));
    assert_eq!(found(store.get_if_present(key())), Some(7));
}

#[test]
fn update_of_a_missing_key() {
    let mut store = store();
    assert_eq!(responded(update(&mut store, false)), None);
    assert_eq!(found(store.get_if_present(key())), None);
    let waiter = match update(&mut store, true) {
        Next::Load { key, waiter, deferred: Some(Deferred::Update(f)) } => {
            assert_eq!(key, "key");
            assert_eq!(f(1), 2);
            waiter
        }
        _ => panic!("a missing key is loaded"),
    };
    assert!(matches!(
        get(&mut store),
        Next::Join { waiter: joined, .. } if joined.same_channel(&waiter)
    ));
}

#[test]
fn update_of_a_key_that_is_being_loaded() {
    let (mut store, waiter) = loading();
    assert!(matches!(
        update(&mut store, true),
        Outcome::Join { waiter: joined, deferred: Some(Deferred::Update(_)), .. }
            if joined.same_channel(&waiter)
    ));
    assert_eq!(responded(update(&mut store, false)), None);
    assert!(matches!(get(&mut store), Next::Join { .. }));
}

#[test]
fn update_mut_changes_a_value() {
    let mut store = store();
    store.set(key(), 5);
    assert_eq!(responded(update_mut(&mut store, true)), Some(10));
    assert_eq!(responded(update_mut(&mut store, false)), Some(20));
    assert_eq!(found(store.get_if_present(key())), Some(20));
}

#[test]
fn update_mut_of_a_missing_key() {
    let mut store = store();
    assert_eq!(responded(update_mut(&mut store, false)), None);
    let waiter = match update_mut(&mut store, true) {
        Next::Load { waiter, deferred: Some(Deferred::UpdateMut(_)), .. } => waiter,
        _ => panic!("a missing key is loaded"),
    };
    assert!(matches!(
        get(&mut store),
        Next::Join { waiter: joined, .. } if joined.same_channel(&waiter)
    ));
}

#[test]
fn update_mut_calls_its_function_once() {
    let mut store = store();
    store.set(key(), 5);
    let calls = std::cell::Cell::new(0);
    let token = vec![7];
    let outcome: Outcome<String, u32, String, UpdateFn, _> = store.update_mut(
        key(),
        |value: &mut u32| {
            calls.set(calls.get() + 1);
            *value += token.into_iter().sum::<u32>();
        },
        false,
        waiter,
    );
    assert!(matches!(outcome, Outcome::Respond(CacheResult::Found(12))));
    assert_eq!(calls.get(), 1);
}

#[test]
fn update_mut_agrees_with_update() {
    fn plus_one(value: &mut u32) {
        *value += 1;
    }
    for load in [true, false] {
        let mut replaced = store();
        let mut changed = store();
        for store in [&mut replaced, &mut changed] {
            store.set(key(), 5);
            store.set("other".to_owned(), 8);
        }
        assert_eq!(responded(update(&mut replaced, load)), Some(6));
        let outcome: Next = changed.update_mut(key(), plus_one as UpdateMutFn, load, waiter);
        assert_eq!(responded(outcome), Some(6));
        for store in [&mut replaced, &mut changed] {
            assert_eq!(found(store.get_if_present(key())), Some(6));
            assert_eq!(found(store.get_if_present("other".to_owned())), Some(8));
        }
    }
}

#[test]
fn updates_agree_on_a_value_set_during_the_load() {
    let (mut replaced, _waiter) = loading();
    let (mut changed, _waiter) = loading();
    for store in [&mut replaced, &mut changed] {
        store.set(key(), 1);
        store.unblock(key());
    }
    assert_eq!(responded(update(&mut replaced, false)), Some(2));
    assert_eq!(responded(update_mut(&mut changed, false)), Some(2));
}

#[test]
fn key_is_loaded_once_until_it_is_discarded() {
    let (mut store, waiter) = loading();
    for action in [
        Action::Get(key()),
        Action::Update(key(), add_one, true),
        Action::UpdateMut(key(), double, true),
        Action::UpdateMut(key(), double, false),
    ] {
        assert!(matches!(
            perform(&mut store, action),
            Next::Join { waiter: joined, .. } if joined.same_channel(&waiter)
        ));
    }
    for action in [
        Action::GetIfPresent(key()),
        Action::Update(key(), add_one, false),
        Action::Remove("other".to_owned()),
        Action::RemoveIf(|(key, _)| key == "other"),
        Action::SetAndUnblock(key(), 5),
        Action::Unblock(key()),
    ] {
        assert_eq!(responded(perform(&mut store, action)), None);
    }
    assert_eq!(responded(get(&mut store)), Some(5));
    for discard in [
        Action::Remove(key()),
        Action::RemoveIf(|(key, _)| key == "key"),
        Action::Clear(),
        Action::Unblock(key()),
    ] {
        responded(perform(&mut store, discard));
        assert!(matches!(get(&mut store), Next::Load { .. }));
    }
}

#[test]
fn sender_is_made_only_for_a_load() {
    let unused = || -> Sender<Result<u32, String>> { panic!("nothing is loaded") };
    let (mut store, _waiter) = loading();
    assert!(matches!(
        store.get::<UpdateFn, UpdateMutFn, _>(key(), unused),
        Outcome::Join { .. }
    ));
    store.set_and_unblock(key(), 4);
    assert_eq!(responded(store.get(key(), unused)), Some(4));
    assert_eq!(
        responded(store.update("other".to_owned(), add_one as UpdateFn, false, unused)),
        None
    );
    let waiter = waiter();
    let made = waiter.clone();
    assert!(matches!(
        store.get::<UpdateFn, UpdateMutFn, _>("other".to_owned(), move || made),
        Outcome::Load { waiter: used, .. } if used.same_channel(&waiter)
    ));
}

#[test]
fn update_mut_of_a_key_that_is_being_loaded() {
    for load in [true, false] {
        let (mut store, waiter) = loading();
        assert!(matches!(
            update_mut(&mut store, load),
            Outcome::Join { waiter: joined, deferred: Some(Deferred::UpdateMut(_)), .. }
                if joined.same_channel(&waiter)
        ));
    }
}

#[test]
fn update_after_a_load_prefers_the_set_value() {
    let (mut store, _waiter) = loading();
    store.set(key(), 5);
    store.set_and_unblock(key(), 32);
    assert_eq!(responded(update(&mut store, false)), Some(6));
    assert_eq!(responded(update_mut(&mut store, false)), Some(12));
}

#[test]
fn update_after_a_load_uses_the_loaded_value() {
    let (mut store, _waiter) = loading();
    store.set_and_unblock(key(), 32);
    assert_eq!(responded(update(&mut store, false)), Some(33));
}

#[test]
fn actions_are_performed() {
    let mut store = store();
    assert!(matches!(
        perform(&mut store, Action::Get(key())),
        Next::Load { .. }
    ));
    assert_eq!(
        responded(perform(&mut store, Action::SetAndUnblock(key(), 1))),
        None
    );
    assert_eq!(
        responded(perform(&mut store, Action::GetIfPresent(key()))),
        Some(1)
    );
    assert_eq!(
        responded(perform(&mut store, Action::Put(key(), 2))),
        Some(1)
    );
    assert_eq!(
        responded(perform(&mut store, Action::Update(key(), add_one, true))),
        Some(3)
    );
    assert_eq!(
        responded(perform(&mut store, Action::UpdateMut(key(), double, true))),
        Some(6)
    );
    assert_eq!(responded(perform(&mut store, Action::Unblock(key()))), None);
    assert_eq!(
        responded(perform(&mut store, Action::Remove(key()))),
        Some(6)
    );
    store.set(key(), 7);
    assert_eq!(
        responded(perform(&mut store, Action::RemoveIf(|(_, value)| value == Some(&7)))),
        None
    );
    assert_eq!(
        responded(perform(&mut store, Action::GetIfPresent(key()))),
        None
    );
    store.set(key(), 8);
    assert_eq!(responded(perform(&mut store, Action::Clear())), None);
    assert_eq!(
        responded(perform(&mut store, Action::GetIfPresent(key()))),
        None
    );
}

#[test]
fn store_starts_with_the_entries_of_its_backing() {
    let mut backing: HashMapBacking<String, Entry> = HashMapBacking::new();
    backing.set(key(), CacheEntry::Loaded(4));
    let mut store = InternalCacheStore::new(backing);
    assert_eq!(found(store.get_if_present(key())), Some(4));
}

#[test]
fn entries_are_cloned_with_their_channel() {
    let waiter = waiter();
    let entry: Entry = CacheEntry::Loading(waiter.clone());
    assert!(matches!(entry.clone(), CacheEntry::Loading(clone) if clone.same_channel(&waiter)));
    let entry: Entry = CacheEntry::Loaded(3);
    assert!(matches!(entry.clone(), CacheEntry::Loaded(3)));
}
