//! How requests run their course and how their ends are read, stated of the calls that do it.

use crate::cache_api::{CacheCommunicationError, CacheLoadingError, CacheResult, ResultMeta};
use crate::exchange::{
    advance, is_conclusive, Done, Effect, Event, Meta, Optional, Presence, Reading, Stage, Value,
};
use std::fmt::Debug;
use vstd::prelude::*;

verus! {

/// An error that a request ends in is what its caller gets, whatever the caller asked for. No error
/// is read as success, and none as another.
pub proof fn law_errors_are_passed_on<V, E: Debug>(
    error: CacheLoadingError<E>,
    end: Result<Option<ResultMeta<V>>, CacheLoadingError<E>>,
    meta: Result<ResultMeta<V>, CacheLoadingError<E>>,
    value: Result<V, CacheLoadingError<E>>,
    optional: Result<Option<V>, CacheLoadingError<E>>,
    presence: Result<bool, CacheLoadingError<E>>,
    done: Result<(), CacheLoadingError<E>>,
)
    requires
        end == Err::<Option<ResultMeta<V>>, _>(error),
    ensures
        call_ensures(<Meta as Reading<V, E>>::read, (end,), meta) ==> meta == Err::<
            ResultMeta<V>,
            _,
        >(error),
        call_ensures(<Value as Reading<V, E>>::read, (end,), value) ==> value == Err::<V, _>(error),
        call_ensures(<Optional as Reading<V, E>>::read, (end,), optional) ==> optional == Err::<
            Option<V>,
            _,
        >(error),
        call_ensures(<Presence as Reading<V, E>>::read, (end,), presence) ==> presence == Err::<
            bool,
            _,
        >(error),
        call_ensures(<Done as Reading<V, E>>::read, (end,), done) ==> done == Err::<(), _>(error),
{
}

/// A value that a request ends in is what its caller gets, with where it came from if the caller
/// asked for that, or the mere fact that it is there if the caller asked for no more.
pub proof fn law_values_are_passed_on<V, E: Debug>(
    found: ResultMeta<V>,
    end: Result<Option<ResultMeta<V>>, CacheLoadingError<E>>,
    meta: Result<ResultMeta<V>, CacheLoadingError<E>>,
    value: Result<V, CacheLoadingError<E>>,
    optional: Result<Option<V>, CacheLoadingError<E>>,
    presence: Result<bool, CacheLoadingError<E>>,
    done: Result<(), CacheLoadingError<E>>,
)
    requires
        end == Ok::<_, CacheLoadingError<E>>(Some(found)),
    ensures
        call_ensures(<Meta as Reading<V, E>>::read, (end,), meta) ==> meta == Ok::<
            _,
            CacheLoadingError<E>,
        >(found),
        call_ensures(<Value as Reading<V, E>>::read, (end,), value) ==> value == Ok::<
            _,
            CacheLoadingError<E>,
        >(found.result),
        call_ensures(<Optional as Reading<V, E>>::read, (end,), optional) ==> optional == Ok::<
            _,
            CacheLoadingError<E>,
        >(Some(found.result)),
        call_ensures(<Presence as Reading<V, E>>::read, (end,), presence) ==> presence == Ok::<
            _,
            CacheLoadingError<E>,
        >(true),
        call_ensures(<Done as Reading<V, E>>::read, (end,), done) ==> done is Ok,
{
}

/// A request that ends without a value and without an error is read as just that.
pub proof fn law_absence_is_passed_on<V, E: Debug>(
    end: Result<Option<ResultMeta<V>>, CacheLoadingError<E>>,
    optional: Result<Option<V>, CacheLoadingError<E>>,
    presence: Result<bool, CacheLoadingError<E>>,
    done: Result<(), CacheLoadingError<E>>,
)
    requires
        end is Ok,
        end->Ok_0 is None,
    ensures
        call_ensures(<Optional as Reading<V, E>>::read, (end,), optional) ==> optional == Ok::<
            Option<V>,
            CacheLoadingError<E>,
        >(None),
        call_ensures(<Presence as Reading<V, E>>::read, (end,), presence) ==> presence == Ok::<
            bool,
            CacheLoadingError<E>,
        >(false),
        call_ensures(<Done as Reading<V, E>>::read, (end,), done) ==> done is Ok,
{
}

/// Every end can be read, but that a value which must be there cannot be read off an end without
/// one. Which ends can be read is told before they are.
pub proof fn law_what_can_be_read<V, E: Debug>(
    end: Result<Option<ResultMeta<V>>, CacheLoadingError<E>>,
    told: bool,
)
    ensures
        call_requires(<Optional as Reading<V, E>>::read, (end,)),
        call_requires(<Presence as Reading<V, E>>::read, (end,)),
        call_requires(<Done as Reading<V, E>>::read, (end,)),
        end is Err || end->Ok_0 is Some ==> {
            &&& call_requires(<Meta as Reading<V, E>>::read, (end,))
            &&& call_requires(<Value as Reading<V, E>>::read, (end,))
        },
        call_ensures(<Optional as Reading<V, E>>::readable, (&end,), told) ==> told,
        call_ensures(<Presence as Reading<V, E>>::readable, (&end,), told) ==> told,
        call_ensures(<Done as Reading<V, E>>::readable, (&end,), told) ==> told,
        call_ensures(<Meta as Reading<V, E>>::readable, (&end,), told) ==> told == (end is Err
            || end->Ok_0 is Some),
        call_ensures(<Value as Reading<V, E>>::readable, (&end,), told) ==> told == (end is Err
            || end->Ok_0 is Some),
        call_ensures(is_conclusive::<V, E>, (&end,), told) ==> told == (end is Err
            || end->Ok_0 is Some),
        call_requires(<Optional as Reading<V, E>>::readable, (&end,)),
        call_requires(<Presence as Reading<V, E>>::readable, (&end,)),
        call_requires(<Done as Reading<V, E>>::readable, (&end,)),
        call_requires(<Meta as Reading<V, E>>::readable, (&end,)),
        call_requires(<Value as Reading<V, E>>::readable, (&end,)),
        call_requires(is_conclusive::<V, E>, (&end,)),
{
}

/// A request that could not be submitted ends in the error that says so, and one that was submitted
/// waits for its response.
pub proof fn law_submission<V, E: Debug>(stage: Stage, effect: Effect<V, E>)
    ensures
        call_requires(advance::<V, E>, (Stage::Submitting, Event::<V, E>::Submitted)),
        call_requires(advance::<V, E>, (Stage::Submitting, Event::<V, E>::SubmitFailed)),
        call_ensures(
            advance::<V, E>,
            (Stage::Submitting, Event::<V, E>::Submitted),
            (stage, effect),
        ) ==> stage == Stage::AwaitingResponse && effect is AwaitResponse,
        call_ensures(
            advance::<V, E>,
            (Stage::Submitting, Event::<V, E>::SubmitFailed),
            (stage, effect),
        ) ==> stage == Stage::Finished && effect == Effect::<V, E>::Finish(
            Err(
                CacheLoadingError::CommunicationError(
                    CacheCommunicationError::TokioMpscSendError(),
                ),
            ),
        ),
{
}

/// A request that the cache answers with a value ends in that value, which counts as cached. One
/// that it answers with nothing ends in nothing, and one that it answers with a load waits for that
/// load. One that it does not answer ends in the error that says so.
pub proof fn law_response<V, E: Debug>(
    response: Result<CacheResult<V, E>, tokio::sync::oneshot::error::RecvError>,
    stage: Stage,
    effect: Effect<V, E>,
)
    ensures
        call_requires(
            advance::<V, E>,
            (Stage::AwaitingResponse, Event::<V, E>::Responded(response)),
        ),
        call_ensures(
            advance::<V, E>,
            (Stage::AwaitingResponse, Event::<V, E>::Responded(response)),
            (stage, effect),
        ) ==> match response {
            Ok(CacheResult::Found(value)) => stage == Stage::Finished && effect == Effect::<
                V,
                E,
            >::Finish(Ok(Some(ResultMeta { result: value, cached: true }))),
            Ok(CacheResult::Nothing) => stage == Stage::Finished && effect == Effect::<
                V,
                E,
            >::Finish(Ok(None)),
            Ok(CacheResult::Loading(load)) => stage == Stage::AwaitingLoad && effect == Effect::<
                V,
                E,
            >::AwaitLoad(load),
            Err(lost) => stage == Stage::Finished && effect == Effect::<V, E>::Finish(
                Err(
                    CacheLoadingError::CommunicationError(
                        CacheCommunicationError::TokioOneshotRecvError(lost),
                    ),
                ),
            ),
        },
{
}

/// A request that waited for a load ends as the load did: in the loaded value, which does not count
/// as cached, or in the error of the load. If the load was lost it ends in the error that says so.
pub proof fn law_joined<V, E: Debug>(
    joined: Result<Result<V, CacheLoadingError<E>>, tokio::task::JoinError>,
    stage: Stage,
    effect: Effect<V, E>,
)
    ensures
        call_requires(advance::<V, E>, (Stage::AwaitingLoad, Event::<V, E>::Joined(joined))),
        call_ensures(
            advance::<V, E>,
            (Stage::AwaitingLoad, Event::<V, E>::Joined(joined)),
            (stage, effect),
        ) ==> stage == Stage::Finished && match joined {
            Ok(Ok(value)) => effect == Effect::<V, E>::Finish(
                Ok(Some(ResultMeta { result: value, cached: false })),
            ),
            Ok(Err(error)) => effect == Effect::<V, E>::Finish(Err(error)),
            Err(lost) => effect == Effect::<V, E>::Finish(
                Err(
                    CacheLoadingError::CommunicationError(
                        CacheCommunicationError::FutureJoinError(lost),
                    ),
                ),
            ),
        },
{
}

/// A request whose load failed gives its caller the error of the load, whatever the caller asked
/// for.
pub proof fn law_failed_load_is_an_error<V, E: Debug>(
    error: CacheLoadingError<E>,
    stage: Stage,
    end: Result<Option<ResultMeta<V>>, CacheLoadingError<E>>,
    meta: Result<ResultMeta<V>, CacheLoadingError<E>>,
    value: Result<V, CacheLoadingError<E>>,
    optional: Result<Option<V>, CacheLoadingError<E>>,
)
    requires
        call_ensures(
            advance::<V, E>,
            (Stage::AwaitingLoad, Event::<V, E>::Joined(Ok(Err(error)))),
            (stage, Effect::Finish(end)),
        ),
        call_ensures(<Meta as Reading<V, E>>::read, (end,), meta),
        call_ensures(<Value as Reading<V, E>>::read, (end,), value),
        call_ensures(<Optional as Reading<V, E>>::read, (end,), optional),
    ensures
        meta == Err::<ResultMeta<V>, _>(error),
        value == Err::<V, _>(error),
        optional == Err::<Option<V>, _>(error),
{
}

/// A request whose load succeeded gives its caller the loaded value, not as a cached one, and a
/// request that the cache answered with a value gives that one, as a cached one.
pub proof fn law_value_and_where_it_came_from<V, E: Debug>(
    given: V,
    cached: bool,
    stage: Stage,
    end: Result<Option<ResultMeta<V>>, CacheLoadingError<E>>,
    meta: Result<ResultMeta<V>, CacheLoadingError<E>>,
    value: Result<V, CacheLoadingError<E>>,
    optional: Result<Option<V>, CacheLoadingError<E>>,
)
    requires
        if cached {
            call_ensures(
                advance::<V, E>,
                (Stage::AwaitingResponse, Event::<V, E>::Responded(Ok(CacheResult::Found(given)))),
                (stage, Effect::Finish(end)),
            )
        } else {
            call_ensures(
                advance::<V, E>,
                (Stage::AwaitingLoad, Event::<V, E>::Joined(Ok(Ok(given)))),
                (stage, Effect::Finish(end)),
            )
        },
        call_ensures(<Meta as Reading<V, E>>::read, (end,), meta),
        call_ensures(<Value as Reading<V, E>>::read, (end,), value),
        call_ensures(<Optional as Reading<V, E>>::read, (end,), optional),
    ensures
        meta is Ok && meta->Ok_0.result == given && meta->Ok_0.cached == cached,
        value == Ok::<_, CacheLoadingError<E>>(given),
        optional == Ok::<_, CacheLoadingError<E>>(Some(given)),
{
}

} // verus!
