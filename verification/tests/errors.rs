use cache_loader_async::error::{CacheCommunicationError, CacheLoadingError};
use tokio::runtime::{Builder, Runtime};

fn runtime() -> Runtime {
    Builder::new_current_thread().build().unwrap()
}

fn join_error() -> tokio::task::JoinError {
    runtime().block_on(async {
        let task = tokio::spawn(std::future::pending::<()>());
        task.abort();
        task.await.unwrap_err()
    })
}

fn broadcast_error() -> tokio::sync::broadcast::error::RecvError {
    let (sender, mut receiver) = tokio::sync::broadcast::channel::<u8>(1);
    drop(sender);
    runtime().block_on(receiver.recv()).unwrap_err()
}

fn oneshot_error() -> tokio::sync::oneshot::error::RecvError {
    let (sender, receiver) = tokio::sync::oneshot::channel::<u8>();
    drop(sender);
    receiver.blocking_recv().unwrap_err()
}

#[test]
fn loading_error_is_read_and_taken_out() {
    let error: CacheLoadingError<u32> = CacheLoadingError::LoadingError(7);
    assert_eq!(error.as_loading_error(), Some(&7));
    assert!(error.as_communication_error().is_none());
    assert_eq!(error.into_loading_error(), Some(7));
    let error: CacheLoadingError<u32> = CacheLoadingError::LoadingError(7);
    assert!(error.into_communication_error().is_none());
}

#[test]
fn communication_error_is_read_and_taken_out() {
    let make = || -> CacheLoadingError<u32> {
        CacheLoadingError::CommunicationError(CacheCommunicationError::LookupLoop())
    };
    assert!(matches!(
        make().as_communication_error(),
        Some(CacheCommunicationError::LookupLoop())
    ));
    assert_eq!(make().as_loading_error(), None);
    assert!(matches!(
        make().into_communication_error(),
        Some(CacheCommunicationError::LookupLoop())
    ));
    assert_eq!(make().into_loading_error(), None);
}

#[test]
fn no_data_is_neither_kind_of_error() {
    let make = || -> CacheLoadingError<u32> { CacheLoadingError::NoData() };
    assert_eq!(make().as_loading_error(), None);
    assert!(make().as_communication_error().is_none());
    assert_eq!(make().into_loading_error(), None);
    assert!(make().into_communication_error().is_none());
}

#[test]
fn errors_of_tokio_are_wrapped() {
    assert!(matches!(
        CacheCommunicationError::from(join_error()),
        CacheCommunicationError::FutureJoinError(error) if error.is_cancelled()
    ));
    assert!(matches!(
        CacheCommunicationError::from(broadcast_error()),
        CacheCommunicationError::TokioBroadcastRecvError(
            tokio::sync::broadcast::error::RecvError::Closed
        )
    ));
    assert!(matches!(
        CacheCommunicationError::from(oneshot_error()),
        CacheCommunicationError::TokioOneshotRecvError(_)
    ));
}

#[test]
fn communication_errors_are_described() {
    assert_eq!(
        CacheCommunicationError::TokioMpscSendError().to_string(),
        "An error occurred when trying to submit the cache request"
    );
    assert_eq!(
        CacheCommunicationError::FutureJoinError(join_error()).to_string(),
        "An error occurred when trying to join the result future"
    );
    assert_eq!(
        CacheCommunicationError::TokioBroadcastRecvError(broadcast_error()).to_string(),
        "An error occurred when waiting for the broadcaster response"
    );
    assert_eq!(
        CacheCommunicationError::TokioOneshotRecvError(oneshot_error()).to_string(),
        "An error occurred when receiving the response"
    );
    assert_eq!(
        CacheCommunicationError::LookupLoop().to_string(),
        "Lookups are looping, internal error"
    );
}

#[test]
fn loading_errors_are_described() {
    let error: CacheLoadingError<u32> = CacheLoadingError::NoData();
    assert_eq!(error.to_string(), "No data found");
    let error: CacheLoadingError<u32> = CacheLoadingError::LoadingError(7);
    assert_eq!(
        error.to_string(),
        "An error occurred when loading the entity from the loader function"
    );
    let error: CacheLoadingError<u32> =
        CacheLoadingError::CommunicationError(CacheCommunicationError::TokioMpscSendError());
    assert_eq!(
        error.to_string(),
        "An error occurred when trying to submit the cache request"
    );
}
