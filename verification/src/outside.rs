//! The items of tokio that the library holds, and how its senders are cloned.
//!
//! The types are opaque: the library carries their values through and never looks inside.
//! What is stated here of tokio's functions is trusted, not proved.

use vstd::prelude::*;

verus! {

/// `tokio::task::JoinError`: why a spawned task gave no result.
#[verifier::external_type_specification]
#[verifier::external_body]
pub struct ExJoinError(tokio::task::JoinError);

/// `tokio::task::JoinHandle`: the handle on which the result of a spawned task is awaited.
#[verifier::external_type_specification]
#[verifier::external_body]
#[verifier::reject_recursive_types(T)]
pub struct ExJoinHandle<T>(tokio::task::JoinHandle<T>);

/// `tokio::sync::broadcast::error::RecvError`: why a broadcast could not be received.
#[verifier::external_type_specification]
#[verifier::external_body]
pub struct ExBroadcastRecvError(tokio::sync::broadcast::error::RecvError);

/// `tokio::sync::broadcast::Sender`: the side of a broadcast channel that sends.
#[verifier::external_type_specification]
#[verifier::external_body]
#[verifier::reject_recursive_types(T)]
pub struct ExBroadcastSender<T>(tokio::sync::broadcast::Sender<T>);

/// `tokio::sync::oneshot::error::RecvError`: the sender of a oneshot channel was dropped unused.
#[verifier::external_type_specification]
#[verifier::external_body]
pub struct ExOneshotRecvError(tokio::sync::oneshot::error::RecvError);

/// `tokio::sync::oneshot::Sender`: the side of a oneshot channel that sends.
#[verifier::external_type_specification]
#[verifier::external_body]
#[verifier::reject_recursive_types(T)]
pub struct ExOneshotSender<T>(tokio::sync::oneshot::Sender<T>);

/// `tokio::sync::oneshot::Receiver`: the side of a oneshot channel that receives.
#[verifier::external_type_specification]
#[verifier::external_body]
#[verifier::reject_recursive_types(T)]
pub struct ExOneshotReceiver<T>(tokio::sync::oneshot::Receiver<T>);

/// `tokio::sync::mpsc::Sender`: the side of a bounded queue that sends.
#[verifier::external_type_specification]
#[verifier::external_body]
#[verifier::reject_recursive_types(T)]
pub struct ExMpscSender<T>(tokio::sync::mpsc::Sender<T>);

/// `tokio::sync::mpsc::Receiver`: the side of a bounded queue that receives.
#[verifier::external_type_specification]
#[verifier::external_body]
#[verifier::reject_recursive_types(T)]
pub struct ExMpscReceiver<T>(tokio::sync::mpsc::Receiver<T>);

/// `tokio::sync::mpsc::Sender::clone` gives another handle on the same queue.
///
/// All that a handle stands for is its queue, so the clone equals its source.
pub assume_specification<T>[ <tokio::sync::mpsc::Sender<T> as Clone>::clone ](
    sender: &tokio::sync::mpsc::Sender<T>,
) -> (handle: tokio::sync::mpsc::Sender<T>)
    ensures
        handle == *sender,
;

/// `tokio::sync::broadcast::Sender::clone` gives another handle on the same channel.
///
/// All that a handle stands for is its channel, so the clone equals its source.
pub assume_specification<T>[ <tokio::sync::broadcast::Sender<T> as Clone>::clone ](
    sender: &tokio::sync::broadcast::Sender<T>,
) -> (handle: tokio::sync::broadcast::Sender<T>)
    ensures
        handle == *sender,
;

} // verus!
