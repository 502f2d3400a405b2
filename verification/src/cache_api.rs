//! What callers of the cache see.

use crate::backing::{CacheBacking, HashMapBacking};
use crate::channels::{open_queue, reply_channel, Answer, QueueIn, QueueOut, Reply};
use crate::exchange::{Done, Meta, Optional, Presence, Reading, Value};
use crate::internal_cache::{CacheAction, InternalCacheStore};
use std::fmt::Debug;
use std::hash::Hash;
use std::marker::PhantomData;
use vstd::prelude::*;
use vstd::std_specs::hash::obeys_key_model;

pub use crate::error::{CacheCommunicationError, CacheLoadingError};

verus! {

/// A value from the cache, with where it came from.
#[derive(Clone)]
pub struct ResultMeta<V> {
    /// The value.
    pub result: V,
    /// Whether the value was in the cache, so that nothing had to be loaded.
    pub cached: bool,
}

/// What the cache holds for a key.
#[derive(Debug, Clone)]
#[verifier::reject_recursive_types(V)]
#[verifier::reject_recursive_types(E)]
pub enum CacheEntry<V, E: Debug> {
    /// The value.
    Loaded(V),
    /// The value is being loaded; how that ends is announced through this sender.
    Loading(tokio::sync::broadcast::Sender<Result<V, E>>),
}

/// What the cache answers to a request.
#[derive(Debug)]
#[verifier::reject_recursive_types(V)]
#[verifier::reject_recursive_types(E)]
pub enum CacheResult<V, E: Debug> {
    /// This value.
    Found(V),
    /// What the task of this handle ends with.
    Loading(tokio::task::JoinHandle<Result<V, CacheLoadingError<E>>>),
    /// Nothing.
    Nothing,
}

impl<V, E: Debug> CacheEntry<V, E> {
    /// The value, unless it is still being loaded.
    pub open spec fn value(self) -> Option<V> {
        match self {
            CacheEntry::Loaded(value) => Some(value),
            CacheEntry::Loading(_) => None,
        }
    }
}

impl<V, E: Debug> CacheResult<V, E> {
    /// The answer that hands out `value`, or that there is none.
    pub open spec fn of(value: Option<V>) -> Self {
        match value {
            Some(value) => CacheResult::Found(value),
            None => CacheResult::Nothing,
        }
    }
}

/// How many requests can be submitted before the next has to wait.
pub const QUEUE_CAPACITY: usize = 128;

/// A request on its way to the cache.
#[verifier::reject_recursive_types(V)]
#[verifier::reject_recursive_types(E)]
pub struct CacheMessage<K, V, E: Debug, U, M, P> {
    /// What the cache is to do.
    pub action: CacheAction<K, V, U, M, P>,
    /// Where it is to answer.
    pub response: Reply<CacheResult<V, E>>,
}

/// A request about to be submitted, the end of which is to be read as `R` says.
#[verifier::reject_recursive_types(K)]
#[verifier::reject_recursive_types(V)]
#[verifier::reject_recursive_types(E)]
#[verifier::reject_recursive_types(U)]
#[verifier::reject_recursive_types(M)]
#[verifier::reject_recursive_types(P)]
#[verifier::reject_recursive_types(R)]
pub struct Request<K, V, E: Debug, U, M, P, R> {
    /// The queue to which the message is to be submitted.
    pub to: QueueIn<CacheMessage<K, V, E, U, M, P>>,
    /// The message to submit.
    pub message: CacheMessage<K, V, E, U, M, P>,
    /// Where the answer to it arrives.
    pub receiver: Answer<CacheResult<V, E>>,
    /// How its end is to be read.
    pub reading: PhantomData<R>,
}

/// What operates a cache: the store, and the queue of requests to it.
#[verifier::reject_recursive_types(K)]
#[verifier::reject_recursive_types(V)]
#[verifier::reject_recursive_types(E)]
#[verifier::reject_recursive_types(U)]
#[verifier::reject_recursive_types(M)]
#[verifier::reject_recursive_types(P)]
pub struct CacheTask<K, V, E: Debug, U, M, P, B> {
    /// The store.
    pub store: InternalCacheStore<K, V, E, B>,
    /// The requests, in the order in which they were submitted.
    pub queue: QueueOut<CacheMessage<K, V, E, U, M, P>>,
}

/// A handle on a cache, through which requests are submitted to it.
#[verifier::reject_recursive_types(K)]
#[verifier::reject_recursive_types(V)]
#[verifier::reject_recursive_types(E)]
#[verifier::reject_recursive_types(U)]
#[verifier::reject_recursive_types(M)]
#[verifier::reject_recursive_types(P)]
pub struct LoadingCache<K, V, E: Debug, U, M, P> {
    tx: QueueIn<CacheMessage<K, V, E, U, M, P>>,
}

impl<K, V, E: Debug, U, M, P> Clone for LoadingCache<K, V, E, U, M, P> {
    fn clone(&self) -> (r: Self)
        ensures
            r == *self,
    {
        LoadingCache { tx: self.tx.clone() }
    }
}

impl<K, V, E, U, M, P> LoadingCache<K, V, E, U, M, P> where
    K: Eq + Hash + Clone + Send,
    V: Clone + Send,
    E: Clone + Send + Debug,
 {
    /// The queue to which requests are submitted.
    pub closed spec fn submits_to(&self) -> QueueIn<CacheMessage<K, V, E, U, M, P>> {
        self.tx
    }

    /// The queue to which requests are submitted.
    pub fn queue(&self) -> (r: &QueueIn<CacheMessage<K, V, E, U, M, P>>)
        ensures
            *r == self.submits_to(),
    {
        &self.tx
    }

    /// Creates a cache with an empty [`HashMapBacking`].
    ///
    /// Returns the handle on it, and what operates it: the requests that are submitted through the
    /// one arrive at the other.
    pub fn new() -> (r: (
        Self,
        CacheTask<K, V, E, U, M, P, HashMapBacking<K, CacheEntry<V, E>>>,
    ))
        ensures
            r.0.submits_to().queue() == r.1.queue.queue(),
            r.0.submits_to().bound() == QUEUE_CAPACITY,
            r.1.store@ == Map::<K, CacheEntry<V, E>>::empty(),
            r.1.store.retains(),
            r.1.store.faithful() == obeys_key_model::<K>(),
    {
        Self::with_backing(HashMapBacking::new())
    }

    /// Creates a cache that keeps its entries in `backing`, and starts with those that it holds.
    ///
    /// Returns the handle on it, and what operates it: the requests that are submitted through the
    /// one arrive at the other.
    pub fn with_backing<B: CacheBacking<K, CacheEntry<V, E>>>(backing: B) -> (r: (
        Self,
        CacheTask<K, V, E, U, M, P, B>,
    ))
        ensures
            r.0.submits_to().queue() == r.1.queue.queue(),
            r.0.submits_to().bound() == QUEUE_CAPACITY,
            r.1.store@ == backing.contents(),
            r.1.store.retains() == backing.retains(),
            r.1.store.faithful() == backing.faithful(),
    {
        let (tx, queue) = open_queue(QUEUE_CAPACITY);
        (LoadingCache { tx }, CacheTask { store: InternalCacheStore::new(backing), queue })
    }

    /// Asks for the value of a key, and to have it loaded where it is missing.
    pub fn get(&self, key: K) -> (r: Request<K, V, E, U, M, P, Value>)
        ensures
            r.message.action == CacheAction::<K, V, U, M, P>::Get(key),
            r.message.response.channel() == r.receiver.channel(),
            r.to == self.submits_to(),
    {
        self.send_cache_action(CacheAction::Get(key))
    }

    /// Asks for the value of a key, and to have it loaded where it is missing, so as to learn
    /// also whether it was.
    pub fn get_with_meta(&self, key: K) -> (r: Request<K, V, E, U, M, P, Meta>)
        ensures
            r.message.action == CacheAction::<K, V, U, M, P>::Get(key),
            r.message.response.channel() == r.receiver.channel(),
            r.to == self.submits_to(),
    {
        self.send_cache_action(CacheAction::Get(key))
    }

    /// Asks to set the value of a key, whether or not it is being loaded.
    pub fn set(&self, key: K, value: V) -> (r: Request<K, V, E, U, M, P, Optional>)
        ensures
            r.message.action == CacheAction::<K, V, U, M, P>::Put(key, value),
            r.message.response.channel() == r.receiver.channel(),
            r.to == self.submits_to(),
    {
        self.send_cache_action(CacheAction::Put(key, value))
    }

    /// Asks for the value of a key if it is in the cache.
    pub fn get_if_present(&self, key: K) -> (r: Request<K, V, E, U, M, P, Optional>)
        ensures
            r.message.action == CacheAction::<K, V, U, M, P>::GetIfPresent(key),
            r.message.response.channel() == r.receiver.channel(),
            r.to == self.submits_to(),
    {
        self.send_cache_action(CacheAction::GetIfPresent(key))
    }

    /// Asks whether a key has a value in the cache.
    pub fn is_present(&self, key: K) -> (r: Request<K, V, E, U, M, P, Presence>)
        ensures
            r.message.action == CacheAction::<K, V, U, M, P>::GetIfPresent(key),
            r.message.response.channel() == r.receiver.channel(),
            r.to == self.submits_to(),
    {
        self.send_cache_action(CacheAction::GetIfPresent(key))
    }

    /// Asks to remove a key.
    pub fn remove(&self, key: K) -> (r: Request<K, V, E, U, M, P, Optional>)
        ensures
            r.message.action == CacheAction::<K, V, U, M, P>::Remove(key),
            r.message.response.channel() == r.receiver.channel(),
            r.to == self.submits_to(),
    {
        self.send_cache_action(CacheAction::Remove(key))
    }

    /// Asks to remove every key that a predicate accepts.
    pub fn remove_if(&self, predicate: P) -> (r: Request<K, V, E, U, M, P, Done>)
        ensures
            r.message.action == CacheAction::<K, V, U, M, P>::RemoveIf(predicate),
            r.message.response.channel() == r.receiver.channel(),
            r.to == self.submits_to(),
    {
        self.send_cache_action(CacheAction::RemoveIf(predicate))
    }

    /// Asks to remove every key.
    pub fn clear(&self) -> (r: Request<K, V, E, U, M, P, Done>)
        ensures
            r.message.action == CacheAction::<K, V, U, M, P>::Clear(),
            r.message.response.channel() == r.receiver.channel(),
            r.to == self.submits_to(),
    {
        self.send_cache_action(CacheAction::Clear())
    }

    /// Asks to replace the value of a key by what a function returns for it, and to have the key
    /// loaded first where it is missing.
    pub fn update(&self, key: K, update_fn: U) -> (r: Request<K, V, E, U, M, P, Value>)
        ensures
            r.message.action == CacheAction::<K, V, U, M, P>::Update(key, update_fn, true),
            r.message.response.channel() == r.receiver.channel(),
            r.to == self.submits_to(),
    {
        self.send_cache_action(CacheAction::Update(key, update_fn, true))
    }

    /// Asks to replace the value of a key by what a function returns for it, if the key has one.
    pub fn update_if_exists(&self, key: K, update_fn: U) -> (r: Request<K, V, E, U, M, P, Optional>)
        ensures
            r.message.action == CacheAction::<K, V, U, M, P>::Update(key, update_fn, false),
            r.message.response.channel() == r.receiver.channel(),
            r.to == self.submits_to(),
    {
        self.send_cache_action(CacheAction::Update(key, update_fn, false))
    }

    /// Asks to let a function change the value of a key, and to have the key loaded first where
    /// it is missing.
    pub fn update_mut(&self, key: K, update_fn: M) -> (r: Request<K, V, E, U, M, P, Value>)
        ensures
            r.message.action == CacheAction::<K, V, U, M, P>::UpdateMut(key, update_fn, true),
            r.message.response.channel() == r.receiver.channel(),
            r.to == self.submits_to(),
    {
        self.send_cache_action(CacheAction::UpdateMut(key, update_fn, true))
    }

    /// Asks to let a function change the value of a key, if the key has one or is being loaded.
    pub fn update_mut_if_exists(&self, key: K, update_fn: M) -> (r: Request<K, V, E, U, M, P, Optional>)
        ensures
            r.message.action == CacheAction::<K, V, U, M, P>::UpdateMut(key, update_fn, false),
            r.message.response.channel() == r.receiver.channel(),
            r.to == self.submits_to(),
    {
        self.send_cache_action(CacheAction::UpdateMut(key, update_fn, false))
    }

    /// Prepares the request for an action: a message that carries the action, with a channel of
    /// its own for the answer, to be submitted to the queue of this cache.
    pub fn send_cache_action<R: Reading<V, E>>(
        &self,
        action: CacheAction<K, V, U, M, P>,
    ) -> (r: Request<K, V, E, U, M, P, R>)
        ensures
            r.message.action == action,
            r.message.response.channel() == r.receiver.channel(),
            r.to == self.submits_to(),
    {
        let (response, receiver) = reply_channel();
        Request {
            to: self.tx.clone(),
            message: CacheMessage { action, response },
            receiver,
            reading: PhantomData,
        }
    }
}

} // verus!
