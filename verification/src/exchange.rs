//! How a request to the cache runs its course, and how its end is read.
//!
//! A request is submitted, then answered, and where the answer is a load, that load is joined.
//! Whoever drives the request reports each of these as an [`Event`] and is told by [`advance`]
//! what comes next.

use crate::cache_api::{CacheCommunicationError, CacheLoadingError, CacheResult, ResultMeta};
use std::fmt::Debug;
use vstd::prelude::*;

verus! {

/// How far a request has come.
#[derive(Clone, Copy, Debug, PartialEq, Eq, Structural)]
pub enum Stage {
    /// The request is being submitted.
    Submitting,
    /// The request was submitted, the response is outstanding.
    AwaitingResponse,
    /// The response was a load, and its end is outstanding.
    AwaitingLoad,
    /// The request has ended.
    Finished,
}

/// What happened to a request.
#[verifier::reject_recursive_types(V)]
#[verifier::reject_recursive_types(E)]
pub enum Event<V, E: Debug> {
    /// It was submitted.
    Submitted,
    /// It could not be submitted.
    SubmitFailed,
    /// The wait for its response ended.
    Responded(Result<CacheResult<V, E>, tokio::sync::oneshot::error::RecvError>),
    /// The wait for the load ended.
    Joined(Result<Result<V, CacheLoadingError<E>>, tokio::task::JoinError>),
}

/// What to do next about a request.
#[verifier::reject_recursive_types(V)]
#[verifier::reject_recursive_types(E)]
pub enum Effect<V, E: Debug> {
    /// Wait for the response.
    AwaitResponse,
    /// Wait for the task of this handle.
    AwaitLoad(tokio::task::JoinHandle<Result<V, CacheLoadingError<E>>>),
    /// Nothing: the request has ended, and this is what became of it.
    Finish(Result<Option<ResultMeta<V>>, CacheLoadingError<E>>),
}

impl<V, E: Debug> Event<V, E> {
    /// The stage of the requests to which the event can happen.
    pub open spec fn stage(self) -> Stage {
        match self {
            Event::Submitted => Stage::Submitting,
            Event::SubmitFailed => Stage::Submitting,
            Event::Responded(_) => Stage::AwaitingResponse,
            Event::Joined(_) => Stage::AwaitingLoad,
        }
    }
}

impl<V, E: Debug> Effect<V, E> {
    /// The stage of a request about which this is to be done.
    pub open spec fn stage(self) -> Stage {
        match self {
            Effect::AwaitResponse => Stage::AwaitingResponse,
            Effect::AwaitLoad(_) => Stage::AwaitingLoad,
            Effect::Finish(_) => Stage::Finished,
        }
    }
}

/// A request ends with `error`, which kept it from being answered.
pub open spec fn fails<V, E: Debug>(error: CacheCommunicationError) -> Effect<V, E> {
    Effect::Finish(Err(CacheLoadingError::CommunicationError(error)))
}

/// A request ends with `value`; `cached` says whether it was there already.
pub open spec fn yields<V, E: Debug>(value: V, cached: bool) -> Effect<V, E> {
    Effect::Finish(Ok(Some(ResultMeta { result: value, cached })))
}

/// What to do about a request after `event`.
pub open spec fn reaction<V, E: Debug>(event: Event<V, E>) -> Effect<V, E> {
    match event {
        Event::Submitted => Effect::AwaitResponse,
        Event::SubmitFailed => fails(CacheCommunicationError::TokioMpscSendError()),
        Event::Responded(Ok(CacheResult::Found(value))) => yields(value, true),
        Event::Responded(Ok(CacheResult::Loading(handle))) => Effect::AwaitLoad(handle),
        Event::Responded(Ok(CacheResult::Nothing)) => Effect::Finish(Ok(None)),
        Event::Responded(Err(error)) => fails(
            CacheCommunicationError::TokioOneshotRecvError(error),
        ),
        Event::Joined(Ok(Ok(value))) => yields(value, false),
        Event::Joined(Ok(Err(error))) => Effect::Finish(Err(error)),
        Event::Joined(Err(error)) => fails(CacheCommunicationError::FutureJoinError(error)),
    }
}

/// Takes a request from the stage at which `event` happened to the next, and says what to do.
pub fn advance<V, E: Debug>(stage: Stage, event: Event<V, E>) -> (r: (Stage, Effect<V, E>))
    requires
        stage == event.stage(),
    ensures
        r.1 == reaction(event),
        r.0 == r.1.stage(),
{
    match event {
        Event::Submitted => (Stage::AwaitingResponse, Effect::AwaitResponse),
        Event::SubmitFailed => {
            let error = CacheCommunicationError::TokioMpscSendError();
            (Stage::Finished, Effect::Finish(Err(CacheLoadingError::CommunicationError(error))))
        },
        Event::Responded(Ok(CacheResult::Found(value))) => {
            let meta = ResultMeta { result: value, cached: true };
            (Stage::Finished, Effect::Finish(Ok(Some(meta))))
        },
        Event::Responded(Ok(CacheResult::Loading(handle))) => (
            Stage::AwaitingLoad,
            Effect::AwaitLoad(handle),
        ),
        Event::Responded(Ok(CacheResult::Nothing)) => (Stage::Finished, Effect::Finish(Ok(None))),
        Event::Responded(Err(error)) => {
            let error = CacheCommunicationError::from(error);
            (Stage::Finished, Effect::Finish(Err(CacheLoadingError::CommunicationError(error))))
        },
        Event::Joined(Ok(Ok(value))) => {
            let meta = ResultMeta { result: value, cached: false };
            (Stage::Finished, Effect::Finish(Ok(Some(meta))))
        },
        Event::Joined(Ok(Err(error))) => (Stage::Finished, Effect::Finish(Err(error))),
        Event::Joined(Err(error)) => {
            let error = CacheCommunicationError::from(error);
            (Stage::Finished, Effect::Finish(Err(CacheLoadingError::CommunicationError(error))))
        },
    }
}

/// A way to read the end of a request.
pub trait Reading<V, E: Debug> {
    /// What is read off a request that did not go wrong.
    type Output;

    /// Whether a request can end like this at all, if it is one that is read this way.
    spec fn admits(end: Result<Option<ResultMeta<V>>, CacheLoadingError<E>>) -> bool;

    /// What is read off `end`.
    spec fn reads(end: Result<Option<ResultMeta<V>>, CacheLoadingError<E>>) -> Result<
        Self::Output,
        CacheLoadingError<E>,
    >;

    /// Tells whether `end` can be read.
    fn readable(end: &Result<Option<ResultMeta<V>>, CacheLoadingError<E>>) -> (r: bool)
        ensures
            r == Self::admits(*end),
    ;

    /// Reads `end`.
    fn read(end: Result<Option<ResultMeta<V>>, CacheLoadingError<E>>) -> (r: Result<
        Self::Output,
        CacheLoadingError<E>,
    >)
        requires
            Self::admits(end),
        ensures
            r == Self::reads(end),
    ;
}

/// Whether a request ended in a value or an error.
pub fn is_conclusive<V, E: Debug>(
    end: &Result<Option<ResultMeta<V>>, CacheLoadingError<E>>,
) -> (r: bool)
    ensures
        r == (*end != Ok::<Option<ResultMeta<V>>, CacheLoadingError<E>>(None)),
{
    match end {
        Ok(None) => false,
        _ => true,
    }
}

/// Reads the value, which must be there, and where it came from.
pub struct Meta;

/// Reads the value, which must be there.
pub struct Value;

/// Reads the value, which may be missing.
pub struct Optional;

/// Reads whether there is a value.
pub struct Presence;

/// Reads only whether the request went wrong.
pub struct Done;

impl<V, E: Debug> Reading<V, E> for Meta {
    type Output = ResultMeta<V>;

    open spec fn admits(end: Result<Option<ResultMeta<V>>, CacheLoadingError<E>>) -> bool {
        end != Ok::<Option<ResultMeta<V>>, CacheLoadingError<E>>(None)
    }

    open spec fn reads(end: Result<Option<ResultMeta<V>>, CacheLoadingError<E>>) -> Result<
        ResultMeta<V>,
        CacheLoadingError<E>,
    > {
        match end {
            Ok(meta) => Ok(meta.unwrap()),
            Err(error) => Err(error),
        }
    }

    fn readable(end: &Result<Option<ResultMeta<V>>, CacheLoadingError<E>>) -> (r: bool) {
        is_conclusive(end)
    }

    fn read(end: Result<Option<ResultMeta<V>>, CacheLoadingError<E>>) -> (r: Result<
        ResultMeta<V>,
        CacheLoadingError<E>,
    >) {
        match end {
            Ok(meta) => Ok(meta.unwrap()),
            Err(error) => Err(error),
        }
    }
}

impl<V, E: Debug> Reading<V, E> for Value {
    type Output = V;

    open spec fn admits(end: Result<Option<ResultMeta<V>>, CacheLoadingError<E>>) -> bool {
        end != Ok::<Option<ResultMeta<V>>, CacheLoadingError<E>>(None)
    }

    open spec fn reads(end: Result<Option<ResultMeta<V>>, CacheLoadingError<E>>) -> Result<
        V,
        CacheLoadingError<E>,
    > {
        match end {
            Ok(meta) => Ok(meta.unwrap().result),
            Err(error) => Err(error),
        }
    }

    fn readable(end: &Result<Option<ResultMeta<V>>, CacheLoadingError<E>>) -> (r: bool) {
        is_conclusive(end)
    }

    fn read(end: Result<Option<ResultMeta<V>>, CacheLoadingError<E>>) -> (r: Result<
        V,
        CacheLoadingError<E>,
    >) {
        match end {
            Ok(meta) => Ok(meta.unwrap().result),
            Err(error) => Err(error),
        }
    }
}

impl<V, E: Debug> Reading<V, E> for Optional {
    type Output = Option<V>;

    open spec fn admits(end: Result<Option<ResultMeta<V>>, CacheLoadingError<E>>) -> bool {
        true
    }

    open spec fn reads(end: Result<Option<ResultMeta<V>>, CacheLoadingError<E>>) -> Result<
        Option<V>,
        CacheLoadingError<E>,
    > {
        match end {
            Ok(Some(meta)) => Ok(Some(meta.result)),
            Ok(None) => Ok(None),
            Err(error) => Err(error),
        }
    }

    fn readable(end: &Result<Option<ResultMeta<V>>, CacheLoadingError<E>>) -> (r: bool) {
        true
    }

    fn read(end: Result<Option<ResultMeta<V>>, CacheLoadingError<E>>) -> (r: Result<
        Option<V>,
        CacheLoadingError<E>,
    >) {
        match end {
            Ok(Some(meta)) => Ok(Some(meta.result)),
            Ok(None) => Ok(None),
            Err(error) => Err(error),
        }
    }
}

impl<V, E: Debug> Reading<V, E> for Presence {
    type Output = bool;

    open spec fn admits(end: Result<Option<ResultMeta<V>>, CacheLoadingError<E>>) -> bool {
        true
    }

    open spec fn reads(end: Result<Option<ResultMeta<V>>, CacheLoadingError<E>>) -> Result<
        bool,
        CacheLoadingError<E>,
    > {
        match end {
            Ok(meta) => Ok(meta is Some),
            Err(error) => Err(error),
        }
    }

    fn readable(end: &Result<Option<ResultMeta<V>>, CacheLoadingError<E>>) -> (r: bool) {
        true
    }

    fn read(end: Result<Option<ResultMeta<V>>, CacheLoadingError<E>>) -> (r: Result<
        bool,
        CacheLoadingError<E>,
    >) {
        match end {
            Ok(meta) => Ok(meta.is_some()),
            Err(error) => Err(error),
        }
    }
}

impl<V, E: Debug> Reading<V, E> for Done {
    type Output = ();

    open spec fn admits(end: Result<Option<ResultMeta<V>>, CacheLoadingError<E>>) -> bool {
        true
    }

    open spec fn reads(end: Result<Option<ResultMeta<V>>, CacheLoadingError<E>>) -> Result<
        (),
        CacheLoadingError<E>,
    > {
        match end {
            Ok(_) => Ok(()),
            Err(error) => Err(error),
        }
    }

    fn readable(end: &Result<Option<ResultMeta<V>>, CacheLoadingError<E>>) -> (r: bool) {
        true
    }

    fn read(end: Result<Option<ResultMeta<V>>, CacheLoadingError<E>>) -> (r: Result<
        (),
        CacheLoadingError<E>,
    >) {
        match end {
            Ok(_) => Ok(()),
            Err(error) => Err(error),
        }
    }
}

} // verus!
