//! The single-shot resolver: a completion handle that is fired at most once
//! and an observing half that sees it fire, or sees it go away unfired.
//!
//! Both halves are those of `futures::channel::oneshot`. Nothing in this
//! module is proved: it is the boundary to that crate.

use vstd::prelude::*;
use futures::channel::oneshot;
use core::future::Future;
use core::pin::Pin;
use core::task::{Context, Poll};

verus! {

/// `futures::channel::oneshot::Sender`, carried as an opaque value.
#[verifier::external_type_specification]
#[verifier::external_body]
#[verifier::reject_recursive_types(T)]
pub struct ExOneshotSender<T>(oneshot::Sender<T>);

/// `futures::channel::oneshot::Receiver`, carried as an opaque value.
#[verifier::external_type_specification]
#[verifier::external_body]
#[verifier::reject_recursive_types(T)]
pub struct ExOneshotReceiver<T>(oneshot::Receiver<T>);

/// `futures::channel::oneshot::Canceled`, which the receiver's output names.
#[verifier::external_type_specification]
#[verifier::external_body]
pub struct ExOneshotCanceled(oneshot::Canceled);

/// `core::task::Context`, carried as an opaque value.
#[verifier::external_type_specification]
#[verifier::external_body]
pub struct ExTaskContext<'a>(Context<'a>);

/// What the observing half of a resolver has seen.
#[derive(Clone, Copy, Debug, PartialEq, Eq, Structural)]
pub enum Signal {
    /// The completion handle was fired.
    Fired,
    /// The completion handle went away without having been fired.
    Disconnected,
}

/// Calls `futures::channel::oneshot::channel` for a channel without payload.
/// Nothing is claimed of the two halves.
#[verifier::external_body]
pub(crate) fn resolver_pair() -> (pair: (oneshot::Sender<()>, oneshot::Receiver<()>)) {
    oneshot::channel()
}

/// Calls `futures::channel::oneshot::Sender::send`, which uses the handle
/// up. The answer depends on whether the observing half is still alive, so
/// nothing is claimed of it.
#[verifier::external_body]
pub(crate) fn fire(tx: oneshot::Sender<()>) -> (delivered: Result<(), ()>) {
    tx.send(())
}

/// Calls `Future::poll` of `futures::channel::oneshot::Receiver`: `None`
/// while the receiver is pending, otherwise what it resolved to. The answer
/// depends on what the holder of the completion handle has done, so nothing
/// is claimed of it.
#[verifier::external_body]
pub(crate) fn poll_signal(rx: &mut oneshot::Receiver<()>, cx: &mut Context<'_>) -> (seen: Option<Signal>) {
    match Pin::new(rx).poll(cx) {
        Poll::Pending => None,
        Poll::Ready(Ok(())) => Some(Signal::Fired),
        Poll::Ready(Err(_)) => Some(Signal::Disconnected),
    }
}

} // verus!
