use cache_loader_async::backing::HashMapBacking;
use cache_loader_async::cache_api::{
    CacheEntry, CacheMessage, CacheTask, LoadingCache, Request, ResultMeta,
};
use cache_loader_async::error::{CacheCommunicationError, CacheLoadingError};
use cache_loader_async::exchange::{
    advance, Done, Effect, Event, Meta, Optional, Reading, Stage, Value,
};
use cache_loader_async::internal_cache::{CacheAction, Deferred, InternalCacheStore, Outcome};
use cache_loader_async::loading::{conclude_update, end_load, join_load, resume};

type Fault = &'static str;
type UpdateFn = Box<dyn FnOnce(u32) -> u32>;
type UpdateMutFn = Box<dyn FnMut(&mut u32)>;
type Predicate = Box<dyn Fn((&String, Option<&u32>)) -> bool>;
type Backing = HashMapBacking<String, CacheEntry<u32, Fault>>;
type Handle = LoadingCache<String, u32, Fault, UpdateFn, UpdateMutFn, Predicate>;
type Task = CacheTask<String, u32, Fault, UpdateFn, UpdateMutFn, Predicate, Backing>;
type Asked<R> = Request<String, u32, Fault, UpdateFn, UpdateMutFn, Predicate, R>;
type Message = CacheMessage<String, u32, Fault, UpdateFn, UpdateMutFn, Predicate>;
type End = Result<Option<ResultMeta<u32>>, CacheLoadingError<Fault>>;
type Loaded = Result<u32, CacheLoadingError<Fault>>;
type Announcer = tokio::sync::broadcast::Sender<Result<u32, Fault>>;
type Announced = tokio::sync::broadcast::Receiver<Result<u32, Fault>>;
type Waiting = Option<Deferred<UpdateFn, UpdateMutFn>>;

/// A load that a request has started and that the test ends when it sees fit.
struct Load {
    key: String,
    waiter: Announcer,
    deferred: Waiting,
}

/// A request that waits for the end of a load that another has started.
struct Join {
    key: String,
    announcements: Announced,
    deferred: Waiting,
}

/// What has become of a request so far.
enum Course {
    Ended(End),
    Joins(Join),
    Loads(Load),
}

/// A cache that is operated by hand, one request at a time.
struct Bench {
    cache: Handle,
    store: InternalCacheStore<String, u32, Fault, Backing>,
    queue: tokio::sync::mpsc::Receiver<Message>,
}

fn bench() -> Bench {
    let (cache, task): (Handle, Task) = LoadingCache::new();
    Bench { cache, store: task.store, queue: task.queue.into_receiver() }
}

fn read<R: Reading<u32, Fault>>(end: End) -> Result<R::Output, CacheLoadingError<Fault>> {
    assert!(R::readable(&end));
    R::read(end)
}

/// Reads the end of a request whose load ended with `loaded`.
fn joined<R: Reading<u32, Fault>>(loaded: Loaded) -> Result<R::Output, CacheLoadingError<Fault>> {
    match advance(Stage::AwaitingLoad, Event::Joined(Ok(loaded))) {
        (Stage::Finished, Effect::Finish(end)) => read::<R>(end),
        _ => panic!("a request ends with its load"),
    }
}

impl Bench {
    fn submit<R>(&mut self, request: Asked<R>) -> Course {
        let event = match request.to.sender().try_send(request.message) {
            Ok(()) => Event::Submitted,
            Err(_) => Event::SubmitFailed,
        };
        let stage = match advance(Stage::Submitting, event) {
            (stage, Effect::AwaitResponse) => stage,
            (_, Effect::Finish(end)) => return Course::Ended(end),
            (_, Effect::AwaitLoad(_)) => panic!("the request is not answered yet"),
        };
        let message = self.queue.try_recv().unwrap();
        let open = || tokio::sync::broadcast::channel(1).0;
        let answer = match self.store.perform(message.action, open) {
            Outcome::Respond(answer) => answer,
            Outcome::Join { key, waiter, deferred } => {
                let announcements = waiter.subscribe();
                return Course::Joins(Join { key, announcements, deferred });
            }
            Outcome::Load { key, waiter, deferred } => {
                return Course::Loads(Load { key, waiter, deferred });
            }
        };
        assert!(message.response.into_sender().send(answer).is_ok());
        let response = request.receiver.into_receiver().blocking_recv();
        match advance(stage, Event::Responded(response)) {
            (Stage::Finished, Effect::Finish(end)) => Course::Ended(end),
            _ => panic!("the request was answered at once"),
        }
    }

    /// The end of a request that waits for no load.
    fn ask<R: Reading<u32, Fault>>(
        &mut self,
        request: Asked<R>,
    ) -> Result<R::Output, CacheLoadingError<Fault>> {
        match self.submit(request) {
            Course::Ended(end) => read::<R>(end),
            Course::Joins(_) => panic!("joins a load"),
            Course::Loads(_) => panic!("starts a load"),
        }
    }

    fn starts<R>(&mut self, request: Asked<R>) -> Load {
        match self.submit(request) {
            Course::Loads(load) => load,
            _ => panic!("starts no load"),
        }
    }

    fn joins<R>(&mut self, request: Asked<R>) -> Join {
        match self.submit(request) {
            Course::Joins(join) => join,
            _ => panic!("joins no load"),
        }
    }

    /// Makes the update that waited for a load, if there is one.
    fn follow(&mut self, key: String, waited: Loaded, deferred: Waiting) -> Loaded {
        let action = match deferred {
            Some(deferred) => resume(key, deferred),
            None => return waited,
        };
        let request: Asked<Optional> = self.cache.send_cache_action(action);
        match self.submit(request) {
            Course::Ended(end) => conclude_update(waited, Some(end)),
            Course::Joins(_) => conclude_update(waited, None),
            Course::Loads(_) => panic!("an update that waited does not load"),
        }
    }

    /// Ends a load as its loader function did: the cache gets to know it before those who wait.
    fn end(&mut self, load: Load, loaded: Result<u32, Fault>) -> Loaded {
        let end = end_load(load.key.clone(), loaded);
        let report: Asked<Done> = self.cache.send_cache_action(end.report);
        self.ask(report).unwrap();
        load.waiter.send(end.announcement).ok();
        self.follow(load.key, end.result, load.deferred)
    }

    /// Lets a request that waits for a load see its end.
    fn meet(&mut self, mut join: Join) -> Loaded {
        let waited = join_load(Ok(join.announcements.try_recv().unwrap()));
        self.follow(join.key, waited, join.deferred)
    }
}

fn foo() -> String {
    "foo".to_owned()
}

#[test]
fn value_is_loaded_and_then_cached() {
    let mut bench = bench();
    let request = bench.cache.get(foo());
    let load = bench.starts(request);
    assert_eq!(load.key, "foo");
    let loaded = bench.end(load, Ok(32));
    assert_eq!(joined::<Value>(loaded).unwrap(), 32);
    let request = bench.cache.get_with_meta(foo());
    let meta = bench.ask(request).unwrap();
    assert!(meta.cached && meta.result == 32);
    let request = bench.cache.get_with_meta("bar".to_owned());
    let load = bench.starts(request);
    let meta = joined::<Meta>(bench.end(load, Ok(64))).unwrap();
    assert!(!meta.cached && meta.result == 64);
}

#[test]
fn error_of_the_loader_is_returned_and_not_cached() {
    let mut bench = bench();
    let request = bench.cache.get(foo());
    let load = bench.starts(request);
    let error = joined::<Value>(bench.end(load, Err("error-message"))).unwrap_err();
    assert_eq!(error.into_loading_error(), Some("error-message"));
    let request = bench.cache.is_present(foo());
    assert!(!bench.ask(request).unwrap());
    let request = bench.cache.get(foo());
    bench.starts(request);
}

#[test]
fn concurrent_requests_share_one_load() {
    for loaded in [Ok(7), Err("no")] {
        let mut bench = bench();
        let request = bench.cache.get(foo());
        let load = bench.starts(request);
        let request = bench.cache.get_with_meta(foo());
        let second = bench.joins(request);
        let request = bench.cache.get(foo());
        let third = bench.joins(request);
        let first = joined::<Value>(bench.end(load, loaded));
        let second = joined::<Meta>(bench.meet(second));
        let third = joined::<Value>(bench.meet(third));
        match loaded {
            Ok(value) => {
                assert_eq!(first.unwrap(), value);
                let second = second.unwrap();
                assert!(second.result == value && !second.cached);
                assert_eq!(third.unwrap(), value);
            }
            Err(fault) => {
                assert_eq!(first.unwrap_err().into_loading_error(), Some(fault));
                assert!(second.err().and_then(|e| e.into_loading_error()) == Some(fault));
                assert_eq!(third.unwrap_err().into_loading_error(), Some(fault));
            }
        }
    }
}

#[test]
fn value_set_during_a_load_stays() {
    let mut bench = bench();
    let request = bench.cache.get(foo());
    let load = bench.starts(request);
    let request = bench.cache.get_if_present(foo());
    assert_eq!(bench.ask(request).unwrap(), None);
    let request = bench.cache.set(foo(), 5);
    assert_eq!(bench.ask(request).unwrap(), None);
    assert_eq!(joined::<Value>(bench.end(load, Ok(7))).unwrap(), 7);
    let request = bench.cache.get(foo());
    assert_eq!(bench.ask(request).unwrap(), 5);
}

#[test]
fn update_loads_first() {
    let mut bench = bench();
    let request = bench.cache.update(foo(), Box::new(|value| value + 1));
    let load = bench.starts(request);
    assert_eq!(joined::<Value>(bench.end(load, Ok(32))).unwrap(), 33);
    let request = bench.cache.update_mut(foo(), Box::new(|value| *value *= 2));
    assert_eq!(bench.ask(request).unwrap(), 66);
    let request = bench.cache.get(foo());
    assert_eq!(bench.ask(request).unwrap(), 66);
    let request = bench.cache.update_mut("bar".to_owned(), Box::new(|value| *value += 1));
    let load = bench.starts(request);
    assert_eq!(joined::<Value>(bench.end(load, Ok(64))).unwrap(), 65);
}

#[test]
fn update_of_a_value_set_during_the_load() {
    for loaded in [Ok(7), Err("no")] {
        let mut bench = bench();
        let request = bench.cache.update(foo(), Box::new(|value| value + 1));
        let load = bench.starts(request);
        let request = bench.cache.update_mut(foo(), Box::new(|value| *value *= 2));
        let join = bench.joins(request);
        let request = bench.cache.set(foo(), 100);
        bench.ask(request).unwrap();
        assert_eq!(joined::<Value>(bench.end(load, loaded)).unwrap(), 101);
        assert_eq!(joined::<Value>(bench.meet(join)).unwrap(), 202);
    }
}

#[test]
fn update_of_a_key_that_cannot_be_loaded() {
    let mut bench = bench();
    let request = bench.cache.update(foo(), Box::new(|value| value + 1));
    let load = bench.starts(request);
    let error = joined::<Value>(bench.end(load, Err("error-message"))).unwrap_err();
    assert_eq!(error.into_loading_error(), Some("error-message"));
}

#[test]
fn update_of_a_key_removed_during_the_load() {
    let mut bench = bench();
    let request = bench.cache.update(foo(), Box::new(|value| value + 1));
    let load = bench.starts(request);
    let request = bench.cache.remove(foo());
    assert_eq!(bench.ask(request).unwrap(), None);
    let updated = joined::<Value>(bench.end(load, Ok(7)));
    assert!(matches!(updated, Err(CacheLoadingError::NoData())));
}

#[test]
fn update_that_meets_another_load_gives_up() {
    let mut bench = bench();
    let request = bench.cache.update_mut(foo(), Box::new(|value| *value += 1));
    let load = bench.starts(request);
    let request = bench.cache.get(foo());
    let other = bench.joins(request);
    let action: CacheAction<String, u32, UpdateFn, UpdateMutFn, Predicate> =
        CacheAction::Unblock(foo());
    let report: Asked<Done> = bench.cache.send_cache_action(action);
    bench.ask(report).unwrap();
    let request = bench.cache.get(foo());
    bench.starts(request);
    let updated = joined::<Value>(bench.follow(load.key, Ok(1), load.deferred));
    assert!(matches!(
        updated.unwrap_err().into_communication_error(),
        Some(CacheCommunicationError::LookupLoop())
    ));
    assert!(other.deferred.is_none());
}

#[test]
fn conditional_updates() {
    let mut bench = bench();
    let request = bench.cache.update_if_exists(foo(), Box::new(|value| value + 1));
    assert_eq!(bench.ask(request).unwrap(), None);
    let request = bench.cache.update_mut_if_exists(foo(), Box::new(|value| *value += 1));
    assert_eq!(bench.ask(request).unwrap(), None);
    let request = bench.cache.set(foo(), 1);
    bench.ask(request).unwrap();
    let request = bench.cache.update_if_exists(foo(), Box::new(|value| value + 1));
    assert_eq!(bench.ask(request).unwrap(), Some(2));
    let request = bench.cache.update_mut_if_exists(foo(), Box::new(|value| *value += 1));
    assert_eq!(bench.ask(request).unwrap(), Some(3));
}

#[test]
fn conditional_updates_during_a_load() {
    let mut bench = bench();
    let request = bench.cache.get(foo());
    let load = bench.starts(request);
    let request = bench.cache.update_if_exists(foo(), Box::new(|value| value + 1));
    assert_eq!(bench.ask(request).unwrap(), None);
    let request = bench.cache.update_mut_if_exists(foo(), Box::new(|value| *value += 2));
    let join = bench.joins(request);
    assert_eq!(joined::<Value>(bench.end(load, Ok(7))).unwrap(), 7);
    assert_eq!(joined::<Optional>(bench.meet(join)).unwrap(), Some(9));
    let request = bench.cache.get(foo());
    assert_eq!(bench.ask(request).unwrap(), 9);
}

#[test]
fn values_are_set_and_removed() {
    let mut bench = bench();
    let request = bench.cache.set(foo(), 1);
    assert_eq!(bench.ask(request).unwrap(), None);
    let request = bench.cache.set(foo(), 2);
    assert_eq!(bench.ask(request).unwrap(), Some(1));
    let request = bench.cache.is_present(foo());
    assert!(bench.ask(request).unwrap());
    let request = bench.cache.get_if_present(foo());
    assert_eq!(bench.ask(request).unwrap(), Some(2));
    let request = bench.cache.remove(foo());
    assert_eq!(bench.ask(request).unwrap(), Some(2));
    let request = bench.cache.remove(foo());
    assert_eq!(bench.ask(request).unwrap(), None);
    let request = bench.cache.is_present(foo());
    assert!(!bench.ask(request).unwrap());
}

#[test]
fn many_values_are_removed_at_once() {
    let mut bench = bench();
    for (key, value) in [("a", 1), ("b", 2), ("c", 3)] {
        let request = bench.cache.set(key.to_owned(), value);
        bench.ask(request).unwrap();
    }
    let request = bench.cache.remove_if(Box::new(|(_, value)| value == Some(&2)));
    bench.ask(request).unwrap();
    for (key, present) in [("a", true), ("b", false), ("c", true)] {
        let request = bench.cache.is_present(key.to_owned());
        assert_eq!(bench.ask(request).unwrap(), present);
    }
    let request = bench.cache.clear();
    bench.ask(request).unwrap();
    for key in ["a", "b", "c"] {
        let request = bench.cache.is_present(key.to_owned());
        assert!(!bench.ask(request).unwrap());
    }
}

#[test]
fn removals_succeed_whatever_is_there() {
    let mut bench = bench();
    let request = bench.cache.clear();
    assert!(bench.ask(request).is_ok());
    let request = bench.cache.remove_if(Box::new(|_| true));
    assert!(bench.ask(request).is_ok());
    let request = bench.cache.get(foo());
    bench.starts(request);
    let request = bench.cache.remove_if(Box::new(|(_, value)| value.is_none()));
    assert!(bench.ask(request).is_ok());
    let request = bench.cache.get(foo());
    bench.starts(request);
    let request = bench.cache.clear();
    assert!(bench.ask(request).is_ok());
}

#[test]
fn cache_that_is_gone_cannot_be_asked() {
    let mut bench = bench();
    bench.queue.close();
    let request = bench.cache.get(foo());
    let error = bench.ask(request).unwrap_err();
    assert!(matches!(
        error.into_communication_error(),
        Some(CacheCommunicationError::TokioMpscSendError())
    ));
}
