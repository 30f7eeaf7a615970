//! One-shot handoffs between application code and the protocol layer,
//! carried by tokio's oneshot channels.
//!
//! Whether the other half is still there, or has sent its value, depends
//! on other tasks; the wrappers below therefore promise nothing about their
//! outcome, and the callers state what holds for each outcome.
use tokio::sync::oneshot::error::{RecvError, TryRecvError};
use tokio::sync::oneshot::{Receiver, Sender};
use vstd::prelude::*;

verus! {

#[verifier::external_type_specification]
#[verifier::external_body]
#[verifier::reject_recursive_types(T)]
pub struct ExSender<T>(Sender<T>);

#[verifier::external_type_specification]
#[verifier::external_body]
#[verifier::reject_recursive_types(T)]
pub struct ExReceiver<T>(Receiver<T>);

/// Named by the `Future` impl of `Receiver`, which Verus reads when the
/// receiver type is declared; nothing here uses it otherwise.
#[verifier::external_type_specification]
#[verifier::external_body]
pub struct ExRecvError(RecvError);

/// The outcome of a non-blocking take from a one-shot receiver.
pub enum TryTake<T> {
    /// The value had been sent; it is moved out.
    Ready(T),
    /// Nothing has been sent yet.
    Pending,
    /// The sender is gone without sending, or the value was already taken.
    Abandoned,
}

/// Relies on `tokio::sync::oneshot::channel`: a connected sender and
/// receiver.
#[verifier::external_body]
pub(crate) fn handoff<T>() -> (Sender<T>, Receiver<T>) {
    tokio::sync::oneshot::channel()
}

/// Relies on `Sender::send`: `false` when the receiver was already gone,
/// in which case the value is dropped.
#[verifier::external_body]
pub(crate) fn handoff_send<T>(sender: Sender<T>, value: T) -> bool {
    sender.send(value).is_ok()
}

/// Relies on `Sender::is_closed`: whether the receiver has gone.
#[verifier::external_body]
pub(crate) fn handoff_abandoned<T>(sender: &Sender<T>) -> bool {
    sender.is_closed()
}

/// Relies on `Receiver::try_recv`, which never waits and, when nothing has
/// been sent yet, leaves the receiver as it was.
#[verifier::external_body]
pub(crate) fn handoff_try_take<T>(receiver: &mut Receiver<T>) -> (r: TryTake<T>)
    ensures
        r is Pending ==> *final(receiver) == *old(receiver),
{
    match receiver.try_recv() {
        Ok(value) => TryTake::Ready(value),
        Err(TryRecvError::Empty) => TryTake::Pending,
        Err(TryRecvError::Closed) => TryTake::Abandoned,
    }
}

} // verus!
