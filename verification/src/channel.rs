//! The queues of `std::sync::mpsc` that carry values between threads.
//!
//! Nothing in this module is proved: it is the boundary to those queues.

use vstd::prelude::*;
use std::sync::mpsc;

verus! {

/// `std::sync::mpsc::Sender`, carried as an opaque value.
#[verifier::external_type_specification]
#[verifier::external_body]
#[verifier::reject_recursive_types(T)]
pub struct ExQueueSender<T>(mpsc::Sender<T>);

/// `std::sync::mpsc::Receiver`, carried as an opaque value.
#[verifier::external_type_specification]
#[verifier::external_body]
#[verifier::reject_recursive_types(T)]
pub struct ExQueueReceiver<T>(mpsc::Receiver<T>);

/// `std::sync::mpsc::SendError`, carried as an opaque value.
#[verifier::external_type_specification]
#[verifier::external_body]
#[verifier::reject_recursive_types(T)]
pub struct ExQueueSendError<T>(mpsc::SendError<T>);

/// `std::sync::mpsc::TryRecvError`, carried as an opaque value.
#[verifier::external_type_specification]
#[verifier::external_body]
pub struct ExQueueTryRecvError(mpsc::TryRecvError);

/// `std::sync::mpsc::RecvError`, carried as an opaque value.
#[verifier::external_type_specification]
#[verifier::external_body]
pub struct ExQueueRecvError(mpsc::RecvError);

/// Calls `std::sync::mpsc::Sender::send`, which never blocks. It fails when
/// the receiving end is gone, which no argument shows, so nothing is
/// claimed of the answer.
#[verifier::external_body]
pub(crate) fn enqueue<T>(tx: &mpsc::Sender<T>, item: T) -> (sent: Result<(), mpsc::SendError<T>>) {
    tx.send(item)
}

/// Calls `std::sync::mpsc::Receiver::try_recv`, which never blocks: an item
/// if one is waiting in the queue. What other threads have sent decides the
/// answer, so nothing is claimed of it.
#[verifier::external_body]
pub(crate) fn try_next<T>(rx: &mpsc::Receiver<T>) -> (item: Result<T, mpsc::TryRecvError>) {
    rx.try_recv()
}

/// Calls `std::sync::mpsc::Receiver::recv`, which blocks until an item
/// arrives or every sender is gone: the item, or an error once the queue is
/// disconnected and empty. What other threads send decides the answer, so
/// nothing is claimed of it.
#[verifier::external_body]
pub(crate) fn wait_next<T>(rx: &mpsc::Receiver<T>) -> (item: Result<T, mpsc::RecvError>) {
    rx.recv()
}

} // verus!
