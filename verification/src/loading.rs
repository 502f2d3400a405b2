//! What follows the end of a load: what the cache, those who wait, and updates that were put off
//! get to know of it.

use crate::cache_api::{CacheCommunicationError, CacheLoadingError, ResultMeta};
use crate::internal_cache::{CacheAction, Deferred};
use std::fmt::Debug;
use vstd::prelude::*;

verus! {

/// What to do once the loader function has returned.
#[verifier::reject_recursive_types(V)]
#[verifier::reject_recursive_types(E)]
pub struct LoadEnd<K, V, E: Debug, U, M, P> {
    /// The action that tells the cache, to be performed first.
    pub report: CacheAction<K, V, U, M, P>,
    /// What to announce to those who wait for the load.
    pub announcement: Result<V, E>,
    /// The result of the request that had the key loaded.
    pub result: Result<V, CacheLoadingError<E>>,
}

/// Says what to do once the loader function has returned `loaded` for `key`.
pub fn end_load<K, V: Clone, E: Clone + Debug, U, M, P>(key: K, loaded: Result<V, E>) -> (r:
    LoadEnd<K, V, E, U, M, P>)
    ensures
        match loaded {
            Ok(value) => {
                &&& r.report matches CacheAction::SetAndUnblock(k, copy) && k == key && cloned(
                    value,
                    copy,
                )
                &&& r.announcement matches Ok(copy) && cloned(value, copy)
                &&& r.result == Ok::<V, CacheLoadingError<E>>(value)
            },
            Err(error) => {
                &&& r.report == CacheAction::<K, V, U, M, P>::Unblock(key)
                &&& r.announcement matches Err(copy) && cloned(error, copy)
                &&& r.result == Err::<V, _>(CacheLoadingError::LoadingError(error))
            },
        },
{
    match loaded {
        Ok(value) => LoadEnd {
            report: CacheAction::SetAndUnblock(key, value.clone()),
            announcement: Ok(value.clone()),
            result: Ok(value),
        },
        Err(error) => LoadEnd {
            report: CacheAction::Unblock(key),
            announcement: Err(error.clone()),
            result: Err(CacheLoadingError::LoadingError(error)),
        },
    }
}

/// The result of a request that waited for a load that another request had started.
pub fn join_load<V, E: Debug>(
    announced: Result<Result<V, E>, tokio::sync::broadcast::error::RecvError>,
) -> (r: Result<V, CacheLoadingError<E>>)
    ensures
        match announced {
            Ok(Ok(value)) => r == Ok::<V, CacheLoadingError<E>>(value),
            Ok(Err(error)) => r == Err::<V, _>(CacheLoadingError::LoadingError(error)),
            Err(error) => r == Err::<V, _>(
                CacheLoadingError::<E>::CommunicationError(
                    CacheCommunicationError::TokioBroadcastRecvError(error),
                ),
            ),
        },
{
    match announced {
        Ok(Ok(value)) => Ok(value),
        Ok(Err(error)) => Err(CacheLoadingError::LoadingError(error)),
        Err(error) => Err(
            CacheLoadingError::CommunicationError(CacheCommunicationError::from(error)),
        ),
    }
}

/// The action that sees to an update of `key` once the load that it waited for has ended. It
/// does not have the key loaded again.
pub fn resume<K, V, U, M, P>(key: K, deferred: Deferred<U, M>) -> (r: CacheAction<K, V, U, M, P>)
    ensures
        match deferred {
            Deferred::Update(update_fn) => r == CacheAction::<K, V, U, M, P>::Update(
                key,
                update_fn,
                false,
            ),
            Deferred::UpdateMut(update_fn) => r == CacheAction::<K, V, U, M, P>::UpdateMut(
                key,
                update_fn,
                false,
            ),
        },
{
    match deferred {
        Deferred::Update(update_fn) => CacheAction::Update(key, update_fn, false),
        Deferred::UpdateMut(update_fn) => CacheAction::UpdateMut(key, update_fn, false),
    }
}

/// The result of an update that waited for a load.
///
/// `waited` is how the load ended, and `resumed` how the update did that followed it; `None`
/// stands for one that met yet another load. The update decides: it succeeds where there was a
/// value to update, even one that was set while the load failed. Only where there was none does
/// it matter how the load ended.
pub fn conclude_update<V, E: Debug>(
    waited: Result<V, CacheLoadingError<E>>,
    resumed: Option<Result<Option<ResultMeta<V>>, CacheLoadingError<E>>>,
) -> (r: Result<V, CacheLoadingError<E>>)
    ensures
        match resumed {
            Some(Ok(Some(meta))) => r == Ok::<V, CacheLoadingError<E>>(meta.result),
            Some(Ok(None)) => match waited {
                Ok(_) => r == Err::<V, _>(CacheLoadingError::<E>::NoData()),
                Err(error) => r == Err::<V, _>(error),
            },
            Some(Err(error)) => r == Err::<V, _>(error),
            None => r == Err::<V, _>(
                CacheLoadingError::<E>::CommunicationError(CacheCommunicationError::LookupLoop()),
            ),
        },
{
    match resumed {
        Some(Ok(Some(meta))) => Ok(meta.result),
        Some(Ok(None)) => match waited {
            Ok(_) => Err(CacheLoadingError::NoData()),
            Err(error) => Err(error),
        },
        Some(Err(error)) => Err(error),
        None => Err(CacheLoadingError::CommunicationError(CacheCommunicationError::LookupLoop())),
    }
}

} // verus!
