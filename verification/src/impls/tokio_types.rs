//! Implementations for the channels of tokio.
//!
//! Left out on purpose are the outcomes whose error does not mean that the
//! channel is closed for good, or that do not have the shape of a channel
//! error: receiving from an `mpsc` channel gives an `Option`, sending on a
//! `oneshot` channel gives the unsent value back as the error, and the errors
//! of a `broadcast` channel also report missed messages or can be followed by
//! a success.

use crate::{OrClosed, Share};
use crate::{RECV_PANIC_MESSAGE, SEND_PANIC_MESSAGE};
use tokio::sync::{mpsc, oneshot, watch};
use vstd::prelude::*;

verus! {

/// `tokio::sync::mpsc::Sender`, the sending half of a bounded channel.
#[verifier::external_type_specification]
#[verifier::external_body]
#[verifier::reject_recursive_types(T)]
pub struct ExMpscSender<T>(mpsc::Sender<T>);

/// `tokio::sync::mpsc::UnboundedSender`, the sending half of an unbounded
/// channel.
#[verifier::external_type_specification]
#[verifier::external_body]
#[verifier::reject_recursive_types(T)]
pub struct ExUnboundedSender<T>(mpsc::UnboundedSender<T>);

/// `tokio::sync::mpsc::WeakSender`, a sender that does not keep its bounded
/// channel open.
#[verifier::external_type_specification]
#[verifier::external_body]
#[verifier::reject_recursive_types(T)]
pub struct ExWeakSender<T>(mpsc::WeakSender<T>);

/// `tokio::sync::mpsc::WeakUnboundedSender`, a sender that does not keep its
/// unbounded channel open.
#[verifier::external_type_specification]
#[verifier::external_body]
#[verifier::reject_recursive_types(T)]
pub struct ExWeakUnboundedSender<T>(mpsc::WeakUnboundedSender<T>);

/// `tokio::sync::watch::Sender`, the sending half of a watch channel.
#[verifier::external_type_specification]
#[verifier::external_body]
#[verifier::reject_recursive_types(T)]
pub struct ExWatchSender<T>(watch::Sender<T>);

/// `tokio::sync::watch::Receiver`, the receiving half of a watch channel.
#[verifier::external_type_specification]
#[verifier::external_body]
#[verifier::reject_recursive_types(T)]
pub struct ExWatchReceiver<T>(watch::Receiver<T>);

/// `tokio::sync::mpsc::error::SendError`, returned by a send on an `mpsc`
/// channel whose receiver is gone.
#[verifier::external_type_specification]
#[verifier::external_body]
#[verifier::reject_recursive_types(T)]
pub struct ExMpscSendError<T>(mpsc::error::SendError<T>);

/// `tokio::sync::watch::error::SendError`, returned by a send on a watch
/// channel without receivers.
#[verifier::external_type_specification]
#[verifier::external_body]
#[verifier::reject_recursive_types(T)]
pub struct ExWatchSendError<T>(watch::error::SendError<T>);

/// `tokio::sync::watch::error::RecvError`, returned by waiting for a change
/// on a watch channel whose sender is gone.
#[verifier::external_type_specification]
#[verifier::external_body]
pub struct ExWatchRecvError(watch::error::RecvError);

/// `tokio::sync::oneshot::error::RecvError`, returned by a receive on a
/// oneshot channel whose sender was dropped without sending.
#[verifier::external_type_specification]
#[verifier::external_body]
pub struct ExOneshotRecvError(oneshot::error::RecvError);

/// Sharing a `Sender` gives another sender of the same channel.
impl<T> Share for mpsc::Sender<T> {}

/// Sharing an `UnboundedSender` gives another sender of the same channel.
impl<T> Share for mpsc::UnboundedSender<T> {}

/// Sharing a `WeakSender` gives another weak sender of the same channel.
impl<T> Share for mpsc::WeakSender<T> {}

/// Sharing a `WeakUnboundedSender` gives another weak sender of the same
/// channel.
impl<T> Share for mpsc::WeakUnboundedSender<T> {}

/// Sharing a watch `Sender` gives another sender of the same channel.
impl<T> Share for watch::Sender<T> {}

/// Sharing a watch `Receiver` gives another receiver of the same channel.
impl<T> Share for watch::Receiver<T> {}

/// The outcome of sending on an `mpsc` channel, bounded or not: the error
/// means that the receiver is gone.
impl<T, E> OrClosed for Result<T, mpsc::error::SendError<E>> {
    type Value = T;

    open spec fn is_closed(&self) -> bool {
        self is Err
    }

    open spec fn value(&self) -> T {
        self->Ok_0
    }

    fn closed_message(&self) -> (message: Option<&'static str>)
        ensures
            message matches Some(text) ==> text@ == SEND_PANIC_MESSAGE@,
    {
        match self {
            Ok(_) => None,
            Err(_) => Some(SEND_PANIC_MESSAGE),
        }
    }

    fn or_closed(self) -> (value: T)
        ensures
            self == Ok::<T, mpsc::error::SendError<E>>(value),
    {
        self.expect(SEND_PANIC_MESSAGE)
    }
}

/// The outcome of sending on a watch channel: the error means that no
/// receiver is left.
impl<T, E> OrClosed for Result<T, watch::error::SendError<E>> {
    type Value = T;

    open spec fn is_closed(&self) -> bool {
        self is Err
    }

    open spec fn value(&self) -> T {
        self->Ok_0
    }

    fn closed_message(&self) -> (message: Option<&'static str>)
        ensures
            message matches Some(text) ==> text@ == SEND_PANIC_MESSAGE@,
    {
        match self {
            Ok(_) => None,
            Err(_) => Some(SEND_PANIC_MESSAGE),
        }
    }

    fn or_closed(self) -> (value: T)
        ensures
            self == Ok::<T, watch::error::SendError<E>>(value),
    {
        self.expect(SEND_PANIC_MESSAGE)
    }
}

/// The outcome of waiting for a change on a watch channel: the error means
/// that the sender is gone.
impl<T> OrClosed for Result<T, watch::error::RecvError> {
    type Value = T;

    open spec fn is_closed(&self) -> bool {
        self is Err
    }

    open spec fn value(&self) -> T {
        self->Ok_0
    }

    fn closed_message(&self) -> (message: Option<&'static str>)
        ensures
            message matches Some(text) ==> text@ == RECV_PANIC_MESSAGE@,
    {
        match self {
            Ok(_) => None,
            Err(_) => Some(RECV_PANIC_MESSAGE),
        }
    }

    fn or_closed(self) -> (value: T)
        ensures
            self == Ok::<T, watch::error::RecvError>(value),
    {
        self.expect(RECV_PANIC_MESSAGE)
    }
}

/// The outcome of receiving on a oneshot channel: the error means that the
/// sender was dropped without sending.
impl<T> OrClosed for Result<T, oneshot::error::RecvError> {
    type Value = T;

    open spec fn is_closed(&self) -> bool {
        self is Err
    }

    open spec fn value(&self) -> T {
        self->Ok_0
    }

    fn closed_message(&self) -> (message: Option<&'static str>)
        ensures
            message matches Some(text) ==> text@ == RECV_PANIC_MESSAGE@,
    {
        match self {
            Ok(_) => None,
            Err(_) => Some(RECV_PANIC_MESSAGE),
        }
    }

    fn or_closed(self) -> (value: T)
        ensures
            self == Ok::<T, oneshot::error::RecvError>(value),
    {
        self.expect(RECV_PANIC_MESSAGE)
    }
}

/// A successful send on an `mpsc` channel passes through unchanged:
/// `or_closed` admits it and returns exactly the value that it carries.
pub proof fn lemma_successful_mpsc_send_passes<T, E>(
    outcome: Result<T, mpsc::error::SendError<E>>,
    returned: T,
)
    requires
        outcome is Ok,
        call_ensures(
            <Result<T, mpsc::error::SendError<E>> as OrClosed>::or_closed,
            (outcome,),
            returned,
        ),
    ensures
        !outcome.is_closed(),
        outcome == Ok::<T, mpsc::error::SendError<E>>(returned),
{
}

/// Every failed send on an `mpsc` channel counts as closed, and its diagnostic
/// is the send-side text.
pub proof fn lemma_failed_mpsc_send_is_diagnosed<T, E>(
    outcome: Result<T, mpsc::error::SendError<E>>,
    message: Option<&'static str>,
)
    requires
        outcome is Err,
        call_ensures(
            <Result<T, mpsc::error::SendError<E>> as OrClosed>::closed_message,
            (&outcome,),
            message,
        ),
    ensures
        outcome.is_closed(),
        message matches Some(text) && text@ == "sending with disconnected receiver"@,
{
}

/// A successful send on a watch channel passes through unchanged: `or_closed`
/// admits it and returns exactly the value that it carries.
pub proof fn lemma_successful_watch_send_passes<T, E>(
    outcome: Result<T, watch::error::SendError<E>>,
    returned: T,
)
    requires
        outcome is Ok,
        call_ensures(
            <Result<T, watch::error::SendError<E>> as OrClosed>::or_closed,
            (outcome,),
            returned,
        ),
    ensures
        !outcome.is_closed(),
        outcome == Ok::<T, watch::error::SendError<E>>(returned),
{
}

/// Every failed send on a watch channel counts as closed, and its diagnostic
/// is the send-side text.
pub proof fn lemma_failed_watch_send_is_diagnosed<T, E>(
    outcome: Result<T, watch::error::SendError<E>>,
    message: Option<&'static str>,
)
    requires
        outcome is Err,
        call_ensures(
            <Result<T, watch::error::SendError<E>> as OrClosed>::closed_message,
            (&outcome,),
            message,
        ),
    ensures
        outcome.is_closed(),
        message matches Some(text) && text@ == "sending with disconnected receiver"@,
{
}

/// A successful wait for a change on a watch channel passes through unchanged:
/// `or_closed` admits it and returns exactly the value that it carries.
pub proof fn lemma_successful_watch_change_passes<T>(
    outcome: Result<T, watch::error::RecvError>,
    returned: T,
)
    requires
        outcome is Ok,
        call_ensures(
            <Result<T, watch::error::RecvError> as OrClosed>::or_closed,
            (outcome,),
            returned,
        ),
    ensures
        !outcome.is_closed(),
        outcome == Ok::<T, watch::error::RecvError>(returned),
{
}

/// Every failed wait for a change on a watch channel counts as closed, and its
/// diagnostic is the receive-side text.
pub proof fn lemma_failed_watch_change_is_diagnosed<T>(
    outcome: Result<T, watch::error::RecvError>,
    message: Option<&'static str>,
)
    requires
        outcome is Err,
        call_ensures(
            <Result<T, watch::error::RecvError> as OrClosed>::closed_message,
            (&outcome,),
            message,
        ),
    ensures
        outcome.is_closed(),
        message matches Some(text) && text@ == "receiving with no senders"@,
{
}

/// A successful receive on a oneshot channel passes through unchanged:
/// `or_closed` admits it and returns exactly the value that it carries.
pub proof fn lemma_successful_oneshot_receive_passes<T>(
    outcome: Result<T, oneshot::error::RecvError>,
    returned: T,
)
    requires
        outcome is Ok,
        call_ensures(
            <Result<T, oneshot::error::RecvError> as OrClosed>::or_closed,
            (outcome,),
            returned,
        ),
    ensures
        !outcome.is_closed(),
        outcome == Ok::<T, oneshot::error::RecvError>(returned),
{
}

/// Every failed receive on a oneshot channel counts as closed, and its
/// diagnostic is the receive-side text.
pub proof fn lemma_failed_oneshot_receive_is_diagnosed<T>(
    outcome: Result<T, oneshot::error::RecvError>,
    message: Option<&'static str>,
)
    requires
        outcome is Err,
        call_ensures(
            <Result<T, oneshot::error::RecvError> as OrClosed>::closed_message,
            (&outcome,),
            message,
        ),
    ensures
        outcome.is_closed(),
        message matches Some(text) && text@ == "receiving with no senders"@,
{
}

} // verus!
