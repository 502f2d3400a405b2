//! The errors that a request to the cache can end in.

use std::fmt::Debug;
use vstd::prelude::*;
use vstd::std_specs::convert::FromSpecImpl;

verus! {

/// Why a request to the cache gave no value.
#[derive(Debug)]
pub enum CacheLoadingError<E: Debug> {
    /// The cache could not be asked, or its answer got lost.
    CommunicationError(CacheCommunicationError),
    /// There is no value for the key.
    NoData(),
    /// The loader function returned this error.
    LoadingError(E),
}

/// Why the cache could not be asked, or why its answer got lost.
#[derive(Debug)]
pub enum CacheCommunicationError {
    /// The request could not be submitted.
    TokioMpscSendError(),
    /// The task that computes the answer was lost.
    FutureJoinError(tokio::task::JoinError),
    /// The load that the request waited for was not announced.
    TokioBroadcastRecvError(tokio::sync::broadcast::error::RecvError),
    /// The response was not sent.
    TokioOneshotRecvError(tokio::sync::oneshot::error::RecvError),
    /// A request that had waited for a load found another load under way.
    LookupLoop(),
}

impl From<tokio::task::JoinError> for CacheCommunicationError {
    fn from(error: tokio::task::JoinError) -> (r: Self) {
        CacheCommunicationError::FutureJoinError(error)
    }
}

impl FromSpecImpl<tokio::task::JoinError> for CacheCommunicationError {
    open spec fn obeys_from_spec() -> bool {
        true
    }

    open spec fn from_spec(error: tokio::task::JoinError) -> Self {
        CacheCommunicationError::FutureJoinError(error)
    }
}

impl From<tokio::sync::broadcast::error::RecvError> for CacheCommunicationError {
    fn from(error: tokio::sync::broadcast::error::RecvError) -> (r: Self) {
        CacheCommunicationError::TokioBroadcastRecvError(error)
    }
}

impl FromSpecImpl<tokio::sync::broadcast::error::RecvError> for CacheCommunicationError {
    open spec fn obeys_from_spec() -> bool {
        true
    }

    open spec fn from_spec(error: tokio::sync::broadcast::error::RecvError) -> Self {
        CacheCommunicationError::TokioBroadcastRecvError(error)
    }
}

impl From<tokio::sync::oneshot::error::RecvError> for CacheCommunicationError {
    fn from(error: tokio::sync::oneshot::error::RecvError) -> (r: Self) {
        CacheCommunicationError::TokioOneshotRecvError(error)
    }
}

impl FromSpecImpl<tokio::sync::oneshot::error::RecvError> for CacheCommunicationError {
    open spec fn obeys_from_spec() -> bool {
        true
    }

    open spec fn from_spec(error: tokio::sync::oneshot::error::RecvError) -> Self {
        CacheCommunicationError::TokioOneshotRecvError(error)
    }
}

impl CacheCommunicationError {
    /// The text shown for the error.
    pub open spec fn text(&self) -> Seq<char> {
        match self {
            CacheCommunicationError::TokioMpscSendError() =>
                "An error occurred when trying to submit the cache request"@,
            CacheCommunicationError::FutureJoinError(_) =>
                "An error occurred when trying to join the result future"@,
            CacheCommunicationError::TokioBroadcastRecvError(_) =>
                "An error occurred when waiting for the broadcaster response"@,
            CacheCommunicationError::TokioOneshotRecvError(_) =>
                "An error occurred when receiving the response"@,
            CacheCommunicationError::LookupLoop() => "Lookups are looping, internal error"@,
        }
    }

    /// Describes the error in a sentence.
    pub fn to_string(&self) -> (r: String)
        ensures
            r@ == self.text(),
    {
        let text = match self {
            CacheCommunicationError::TokioMpscSendError() =>
                "An error occurred when trying to submit the cache request",
            CacheCommunicationError::FutureJoinError(_) =>
                "An error occurred when trying to join the result future",
            CacheCommunicationError::TokioBroadcastRecvError(_) =>
                "An error occurred when waiting for the broadcaster response",
            CacheCommunicationError::TokioOneshotRecvError(_) =>
                "An error occurred when receiving the response",
            CacheCommunicationError::LookupLoop() => "Lookups are looping, internal error",
        };
        text.to_owned()
    }
}

impl<E: Debug> CacheLoadingError<E> {
    /// The loader's error, if that is what this error holds.
    pub fn as_loading_error(&self) -> (r: Option<&E>)
        ensures
            match *self {
                CacheLoadingError::LoadingError(error) => r == Some(&error),
                _ => r is None,
            },
    {
        match self {
            CacheLoadingError::LoadingError(error) => Some(error),
            _ => None,
        }
    }

    /// Takes the loader's error out, if that is what this error holds.
    pub fn into_loading_error(self) -> (r: Option<E>)
        ensures
            match self {
                CacheLoadingError::LoadingError(error) => r == Some(error),
                _ => r is None,
            },
    {
        match self {
            CacheLoadingError::LoadingError(error) => Some(error),
            _ => None,
        }
    }

    /// The communication error, if that is what this error holds.
    pub fn as_communication_error(&self) -> (r: Option<&CacheCommunicationError>)
        ensures
            match *self {
                CacheLoadingError::CommunicationError(error) => r == Some(&error),
                _ => r is None,
            },
    {
        match self {
            CacheLoadingError::CommunicationError(error) => Some(error),
            _ => None,
        }
    }

    /// Takes the communication error out, if that is what this error holds.
    pub fn into_communication_error(self) -> (r: Option<CacheCommunicationError>)
        ensures
            match self {
                CacheLoadingError::CommunicationError(error) => r == Some(error),
                _ => r is None,
            },
    {
        match self {
            CacheLoadingError::CommunicationError(error) => Some(error),
            _ => None,
        }
    }

    /// The text shown for the error: that of the communication error where it holds one.
    pub open spec fn text(&self) -> Seq<char> {
        match self {
            CacheLoadingError::CommunicationError(error) => error.text(),
            CacheLoadingError::NoData() => "No data found"@,
            CacheLoadingError::LoadingError(_) =>
                "An error occurred when loading the entity from the loader function"@,
        }
    }

    /// Describes the error in a sentence.
    pub fn to_string(&self) -> (r: String)
        ensures
            r@ == self.text(),
    {
        match self {
            CacheLoadingError::CommunicationError(error) => error.to_string(),
            CacheLoadingError::NoData() => "No data found".to_owned(),
            CacheLoadingError::LoadingError(_) =>
                "An error occurred when loading the entity from the loader function".to_owned(),
        }
    }
}

} // verus!
