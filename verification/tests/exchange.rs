use cache_loader_async::cache_api::{CacheResult, ResultMeta};
use cache_loader_async::error::{CacheCommunicationError, CacheLoadingError};
use cache_loader_async::exchange::{
    advance, Done, Effect, Event, Meta, Optional, Presence, Reading, Stage, Value,
};
use cache_loader_async::internal_cache::{CacheAction, Deferred};
use cache_loader_async::loading::{conclude_update, end_load, join_load, resume, LoadEnd};
use tokio::runtime::{Builder, Runtime};

type Error = CacheLoadingError<String>;
type End = Result<Option<ResultMeta<u32>>, Error>;
type Happening = Event<u32, String>;

fn runtime() -> Runtime {
    Builder::new_current_thread().build().unwrap()
}

fn value(result: u32, cached: bool) -> End {
    Ok(Some(ResultMeta { result, cached }))
}

fn finish(stage: Stage, event: Happening) -> End {
    match advance(stage, event) {
        (Stage::Finished, Effect::Finish(end)) => end,
        _ => panic!("the request goes on"),
    }
}

fn oneshot_error() -> tokio::sync::oneshot::error::RecvError {
    let (sender, receiver) = tokio::sync::oneshot::channel::<u8>();
    drop(sender);
    receiver.blocking_recv().unwrap_err()
}

#[test]
fn submitted_request_awaits_its_response() {
    assert!(matches!(
        advance(Stage::Submitting, Happening::Submitted),
        (Stage::AwaitingResponse, Effect::AwaitResponse)
    ));
}

#[test]
fn request_that_cannot_be_submitted_fails() {
    assert!(matches!(
        finish(Stage::Submitting, Event::SubmitFailed),
        Err(CacheLoadingError::CommunicationError(
            CacheCommunicationError::TokioMpscSendError()
        ))
    ));
}

#[test]
fn found_value_is_cached() {
    let end = finish(
        Stage::AwaitingResponse,
        Event::Responded(Ok(CacheResult::Found(3))),
    );
    assert!(matches!(end, Ok(Some(ResultMeta { result: 3, cached: true }))));
}

#[test]
fn nothing_is_no_error() {
    let end = finish(
        Stage::AwaitingResponse,
        Event::Responded(Ok(CacheResult::Nothing)),
    );
    assert!(matches!(end, Ok(None)));
}

#[test]
fn lost_response_fails_the_request() {
    let end = finish(
        Stage::AwaitingResponse,
        Event::Responded(Err(oneshot_error())),
    );
    assert!(matches!(
        end,
        Err(CacheLoadingError::CommunicationError(
            CacheCommunicationError::TokioOneshotRecvError(_)
        ))
    ));
}

#[test]
fn load_is_joined() {
    runtime().block_on(async {
        let load = tokio::spawn(async { Ok(4) });
        let next = advance(
            Stage::AwaitingResponse,
            Happening::Responded(Ok(CacheResult::Loading(load))),
        );
        let (stage, load) = match next {
            (stage, Effect::AwaitLoad(load)) => (stage, load),
            _ => panic!("the load is not awaited"),
        };
        assert_eq!(stage, Stage::AwaitingLoad);
        let end = finish(stage, Event::Joined(load.await));
        assert!(matches!(end, Ok(Some(ResultMeta { result: 4, cached: false }))));
    });
}

#[test]
fn failed_load_fails_the_request() {
    let end = finish(
        Stage::AwaitingLoad,
        Event::Joined(Ok(Err(CacheLoadingError::LoadingError("no".to_owned())))),
    );
    assert!(matches!(end, Err(CacheLoadingError::LoadingError(error)) if error == "no"));
}

#[test]
fn lost_load_fails_the_request() {
    let lost = runtime().block_on(async {
        let load = tokio::spawn(std::future::pending::<Result<u32, Error>>());
        load.abort();
        load.await
    });
    assert!(matches!(
        finish(Stage::AwaitingLoad, Event::Joined(lost)),
        Err(CacheLoadingError::CommunicationError(
            CacheCommunicationError::FutureJoinError(error)
        )) if error.is_cancelled()
    ));
}

#[test]
fn values_are_read() {
    assert!(matches!(
        <Value as Reading<u32, String>>::read(value(3, true)),
        Ok(3)
    ));
    assert!(matches!(
        <Meta as Reading<u32, String>>::read(value(3, false)),
        Ok(ResultMeta { result: 3, cached: false })
    ));
    assert!(matches!(
        <Optional as Reading<u32, String>>::read(value(3, true)),
        Ok(Some(3))
    ));
    assert!(matches!(
        <Presence as Reading<u32, String>>::read(value(3, true)),
        Ok(true)
    ));
    assert!(matches!(
        <Done as Reading<u32, String>>::read(value(3, true)),
        Ok(())
    ));
}

#[test]
fn missing_values_are_read() {
    assert!(!<Value as Reading<u32, String>>::readable(&Ok(None)));
    assert!(!<Meta as Reading<u32, String>>::readable(&Ok(None)));
    assert!(<Optional as Reading<u32, String>>::readable(&Ok(None)));
    assert!(<Presence as Reading<u32, String>>::readable(&Ok(None)));
    assert!(<Done as Reading<u32, String>>::readable(&Ok(None)));
    assert!(matches!(
        <Optional as Reading<u32, String>>::read(Ok(None)),
        Ok(None)
    ));
    assert!(matches!(
        <Presence as Reading<u32, String>>::read(Ok(None)),
        Ok(false)
    ));
    assert!(matches!(
        <Done as Reading<u32, String>>::read(Ok(None)),
        Ok(())
    ));
}

#[test]
fn errors_are_read() {
    assert!(<Value as Reading<u32, String>>::readable(&Err(Error::NoData())));
    assert!(<Meta as Reading<u32, String>>::readable(&value(1, true)));
    assert!(matches!(
        <Value as Reading<u32, String>>::read(Err(Error::NoData())),
        Err(Error::NoData())
    ));
    assert!(matches!(
        <Meta as Reading<u32, String>>::read(Err(Error::NoData())),
        Err(Error::NoData())
    ));
    assert!(matches!(
        <Optional as Reading<u32, String>>::read(Err(Error::NoData())),
        Err(Error::NoData())
    ));
    assert!(matches!(
        <Presence as Reading<u32, String>>::read(Err(Error::NoData())),
        Err(Error::NoData())
    ));
    assert!(matches!(
        <Done as Reading<u32, String>>::read(Err(Error::NoData())),
        Err(Error::NoData())
    ));
}

#[test]
fn end_of_a_load_is_reported_and_announced() {
    let end: LoadEnd<u8, u32, String, (), (), ()> = end_load(9, Ok(5));
    assert!(matches!(end.report, CacheAction::SetAndUnblock(9, 5)));
    assert_eq!(end.announcement, Ok(5));
    assert!(matches!(end.result, Ok(5)));
}

#[test]
fn failure_of_a_load_is_reported_and_announced() {
    let end: LoadEnd<u8, u32, String, (), (), ()> = end_load(9, Err("no".to_owned()));
    assert!(matches!(end.report, CacheAction::Unblock(9)));
    assert_eq!(end.announcement, Err("no".to_owned()));
    assert!(matches!(end.result, Err(Error::LoadingError(error)) if error == "no"));
}

#[test]
fn joined_load_gives_what_is_announced() {
    let announced: Result<Result<u32, String>, _> = Ok(Ok(5));
    assert!(matches!(join_load(announced), Ok(5)));
    let announced: Result<Result<u32, String>, _> = Ok(Err("no".to_owned()));
    assert!(matches!(join_load(announced), Err(Error::LoadingError(error)) if error == "no"));
    let lost: Result<Result<u32, String>, _> =
        Err(tokio::sync::broadcast::error::RecvError::Closed);
    assert!(matches!(
        join_load(lost),
        Err(Error::CommunicationError(
            CacheCommunicationError::TokioBroadcastRecvError(
                tokio::sync::broadcast::error::RecvError::Closed
            )
        ))
    ));
}

#[test]
fn deferred_update_is_resumed_without_a_load() {
    let action: CacheAction<u8, u32, u16, u64, ()> = resume(9, Deferred::Update(1));
    assert!(matches!(action, CacheAction::Update(9, 1, false)));
    let action: CacheAction<u8, u32, u16, u64, ()> = resume(9, Deferred::UpdateMut(2));
    assert!(matches!(action, CacheAction::UpdateMut(9, 2, false)));
}

#[test]
fn resumed_update_decides() {
    let failed = || -> Result<u32, Error> { Err(Error::LoadingError("no".to_owned())) };
    assert!(matches!(conclude_update(Ok(5), Some(value(6, true))), Ok(6)));
    assert!(matches!(conclude_update(failed(), Some(value(6, true))), Ok(6)));
    assert!(matches!(conclude_update(Ok(5), Some(Ok(None))), Err(Error::NoData())));
    assert!(matches!(
        conclude_update(failed(), Some(Ok(None))),
        Err(Error::LoadingError(error)) if error == "no"
    ));
    assert!(matches!(
        conclude_update(Ok(5), Some(Err(Error::NoData()))),
        Err(Error::NoData())
    ));
    assert!(matches!(
        conclude_update(Ok(5), None),
        Err(Error::CommunicationError(CacheCommunicationError::LookupLoop()))
    ));
}
