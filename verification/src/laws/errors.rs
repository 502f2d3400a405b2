//! What can be asked of an error, stated of the calls that answer it.

use crate::error::{CacheCommunicationError, CacheLoadingError};
use std::fmt::Debug;
use vstd::prelude::*;

verus! {

/// An error of the loader is found in an error that holds one, as it is, and in no other. Looking
/// at it and taking it out find the same.
pub proof fn law_loading_error<E: Debug>(
    error: CacheLoadingError<E>,
    held: E,
    seen: Option<&E>,
    taken: Option<E>,
)
    requires
        call_ensures(CacheLoadingError::<E>::as_loading_error, (&error,), seen),
        call_ensures(CacheLoadingError::<E>::into_loading_error, (error,), taken),
    ensures
        taken == Some(held) <==> error == CacheLoadingError::<E>::LoadingError(held),
        seen == Some(&held) <==> error == CacheLoadingError::<E>::LoadingError(held),
        seen is Some <==> error is LoadingError,
        taken is Some <==> error is LoadingError,
{
}

/// A communication error is found in an error that holds one, as it is, and in no other. Looking at
/// it and taking it out find the same.
pub proof fn law_communication_error<E: Debug>(
    error: CacheLoadingError<E>,
    held: CacheCommunicationError,
    seen: Option<&CacheCommunicationError>,
    taken: Option<CacheCommunicationError>,
)
    requires
        call_ensures(CacheLoadingError::<E>::as_communication_error, (&error,), seen),
        call_ensures(CacheLoadingError::<E>::into_communication_error, (error,), taken),
    ensures
        taken == Some(held) <==> error == CacheLoadingError::<E>::CommunicationError(held),
        seen == Some(&held) <==> error == CacheLoadingError::<E>::CommunicationError(held),
        seen is Some <==> error is CommunicationError,
        taken is Some <==> error is CommunicationError,
{
}

/// An error of tokio is kept as it is in the communication error that is made of it, and tells what
/// was waited for.
pub proof fn law_errors_of_tokio(
    join: tokio::task::JoinError,
    announcement: tokio::sync::broadcast::error::RecvError,
    response: tokio::sync::oneshot::error::RecvError,
    r: CacheCommunicationError,
)
    ensures
        call_ensures(
            <CacheCommunicationError as From<tokio::task::JoinError>>::from,
            (join,),
            r,
        ) ==> r == CacheCommunicationError::FutureJoinError(join),
        call_ensures(
            <CacheCommunicationError as From<tokio::sync::broadcast::error::RecvError>>::from,
            (announcement,),
            r,
        ) ==> r == CacheCommunicationError::TokioBroadcastRecvError(announcement),
        call_ensures(
            <CacheCommunicationError as From<tokio::sync::oneshot::error::RecvError>>::from,
            (response,),
            r,
        ) ==> r == CacheCommunicationError::TokioOneshotRecvError(response),
{
}

/// Each communication error is described by a sentence of its own.
pub proof fn law_communication_error_text(error: CacheCommunicationError, r: String)
    requires
        call_ensures(CacheCommunicationError::to_string, (&error,), r),
    ensures
        error is TokioMpscSendError ==> r@
            == "An error occurred when trying to submit the cache request"@,
        error is FutureJoinError ==> r@
            == "An error occurred when trying to join the result future"@,
        error is TokioBroadcastRecvError ==> r@
            == "An error occurred when waiting for the broadcaster response"@,
        error is TokioOneshotRecvError ==> r@ == "An error occurred when receiving the response"@,
        error is LookupLoop ==> r@ == "Lookups are looping, internal error"@,
{
}

/// An error that holds a communication error is described as that one is; the others have a
/// sentence of their own.
pub proof fn law_loading_error_text<E: Debug>(
    error: CacheLoadingError<E>,
    r: String,
    inner: String,
)
    requires
        call_ensures(CacheLoadingError::<E>::to_string, (&error,), r),
    ensures
        error is CommunicationError && call_ensures(
            CacheCommunicationError::to_string,
            (&error->CommunicationError_0,),
            inner,
        ) ==> r@ == inner@,
        error is NoData ==> r@ == "No data found"@,
        error is LoadingError ==> r@
            == "An error occurred when loading the entity from the loader function"@,
{
}

} // verus!
