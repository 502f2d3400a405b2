use cache_loader_async::backing::{CacheBacking, HashMapBacking};
use cache_loader_async::cache_api::{
    CacheEntry, CacheMessage, CacheResult, CacheTask, LoadingCache, QUEUE_CAPACITY,
};
use cache_loader_async::internal_cache::CacheAction;

type Entry = CacheEntry<u32, String>;
type Cache = LoadingCache<String, u32, String, u8, u16, u64>;
type Task = CacheTask<String, u32, String, u8, u16, u64, HashMapBacking<String, Entry>>;
type Action = CacheAction<String, u32, u8, u16, u64>;

fn cache() -> (Cache, Task) {
    LoadingCache::new()
}

fn key() -> String {
    "key".to_owned()
}

#[test]
fn requests_carry_their_action() {
    let (cache, _task) = cache();
    assert!(matches!(cache.get(key()).message.action, Action::Get(k) if k == "key"));
    assert!(matches!(cache.get_with_meta(key()).message.action, Action::Get(k) if k == "key"));
    assert!(matches!(cache.set(key(), 3).message.action, Action::Put(k, 3) if k == "key"));
    assert!(matches!(
        cache.get_if_present(key()).message.action,
        Action::GetIfPresent(k) if k == "key"
    ));
    assert!(matches!(
        cache.is_present(key()).message.action,
        Action::GetIfPresent(k) if k == "key"
    ));
    assert!(matches!(cache.remove(key()).message.action, Action::Remove(k) if k == "key"));
    assert!(matches!(cache.remove_if(7).message.action, Action::RemoveIf(7)));
    assert!(matches!(cache.clear().message.action, Action::Clear()));
    assert!(matches!(
        cache.update(key(), 1).message.action,
        Action::Update(k, 1, true) if k == "key"
    ));
    assert!(matches!(
        cache.update_if_exists(key(), 1).message.action,
        Action::Update(k, 1, false) if k == "key"
    ));
    assert!(matches!(
        cache.update_mut(key(), 2).message.action,
        Action::UpdateMut(k, 2, true) if k == "key"
    ));
    assert!(matches!(
        cache.update_mut_if_exists(key(), 2).message.action,
        Action::UpdateMut(k, 2, false) if k == "key"
    ));
}

#[test]
fn response_arrives_at_its_request() {
    let (cache, _task) = cache();
    let first = cache.get(key());
    let second = cache.get(key());
    assert!(second.message.response.into_sender().send(CacheResult::Found(2)).is_ok());
    assert!(first.message.response.into_sender().send(CacheResult::Found(1)).is_ok());
    assert!(matches!(first.receiver.into_receiver().blocking_recv(), Ok(CacheResult::Found(1))));
    assert!(matches!(second.receiver.into_receiver().blocking_recv(), Ok(CacheResult::Found(2))));
}

#[test]
fn messages_arrive_at_the_task() {
    let (cache, task) = cache();
    let mut queue = task.queue.into_receiver();
    let clone = cache.clone();
    assert!(clone.queue().sender().same_channel(cache.queue().sender()));
    assert!(cache.queue().sender().blocking_send(cache.get(key()).message).is_ok());
    assert!(clone.queue().sender().blocking_send(clone.clear().message).is_ok());
    assert!(matches!(
        queue.blocking_recv(),
        Some(CacheMessage { action: Action::Get(_), .. })
    ));
    assert!(matches!(
        queue.blocking_recv(),
        Some(CacheMessage { action: Action::Clear(), .. })
    ));
}

#[test]
fn queue_holds_as_many_requests_as_it_should() {
    let (cache, _task) = cache();
    assert_eq!(QUEUE_CAPACITY, 128);
    assert_eq!(cache.queue().sender().max_capacity(), 128);
}

#[test]
fn requests_fail_once_the_task_is_gone() {
    let (cache, task) = cache();
    drop(task);
    assert!(cache.queue().sender().blocking_send(cache.clear().message).is_err());
}

#[test]
fn full_queue_takes_no_more_requests() {
    let (cache, task) = cache();
    for _ in 0..128 {
        assert!(cache.queue().sender().try_send(cache.clear().message).is_ok());
    }
    assert!(cache.queue().sender().try_send(cache.clear().message).is_err());
    let mut queue = task.queue.into_receiver();
    assert!(queue.try_recv().is_ok());
    assert!(cache.queue().clone().sender().try_send(cache.clear().message).is_ok());
}

#[test]
fn caches_do_not_share_a_queue() {
    let (one, _task) = cache();
    let (other, task) = cache();
    assert!(!one.queue().sender().same_channel(other.queue().sender()));
    assert!(one.queue().sender().try_send(one.get(key()).message).is_ok());
    assert!(task.queue.into_receiver().try_recv().is_err());
}

#[test]
fn requests_are_bound_for_the_cache_that_made_them() {
    let (one, one_task) = cache();
    let (other, other_task) = cache();
    let requests = [
        one.update(key(), 1).to,
        one.update_if_exists(key(), 1).to,
        one.clear().to,
        one.clone().get(key()).to,
        one.is_present(key()).to,
    ];
    for to in requests {
        assert!(to.sender().same_channel(one.queue().sender()));
        assert!(!to.sender().same_channel(other.queue().sender()));
    }
    let request = other.remove(key());
    assert!(request.to.sender().try_send(request.message).is_ok());
    assert!(one_task.queue.into_receiver().try_recv().is_err());
    assert!(matches!(
        other_task.queue.into_receiver().try_recv(),
        Ok(CacheMessage { action: Action::Remove(_), .. })
    ));
}

#[test]
fn cache_without_a_backing_has_the_default_one() {
    let (plain, mut plain_task) = cache();
    let (given, mut given_task): (Cache, Task) = LoadingCache::with_backing(HashMapBacking::new());
    assert_eq!(
        plain.queue().sender().max_capacity(),
        given.queue().sender().max_capacity()
    );
    for task in [&mut plain_task, &mut given_task] {
        assert!(matches!(task.store.get_if_present(key()), CacheResult::Nothing));
        assert!(matches!(task.store.set(key(), 1), CacheResult::Nothing));
        assert!(matches!(task.store.get_if_present(key()), CacheResult::Found(1)));
    }
}

#[test]
fn new_cache_is_empty() {
    let (_cache, mut task) = cache();
    assert!(matches!(
        task.store.get_if_present(key()),
        CacheResult::Nothing
    ));
}

#[test]
fn cache_starts_with_the_entries_of_its_backing() {
    let mut backing: HashMapBacking<String, Entry> = HashMapBacking::new();
    backing.set(key(), CacheEntry::Loaded(4));
    let (_cache, mut task): (Cache, Task) = LoadingCache::with_backing(backing);
    assert!(matches!(
        task.store.get_if_present(key()),
        CacheResult::Found(4)
    ));
}
