//! Implementations for the reference-counted pointers, channels and locks of
//! the standard library.
//!
//! The weak pointers `std::rc::Weak` and `std::sync::Weak` are not covered:
//! they take an allocator parameter, which stable Rust does not let a crate
//! write out, so they cannot be declared to Verus.

use crate::{OrClosed, OrPoisoned, Share};
use crate::{POISON_PANIC_MESSAGE, RECV_PANIC_MESSAGE, SEND_PANIC_MESSAGE};
use std::rc::Rc;
use std::sync::mpsc::{RecvError, SendError, Sender, SyncSender};
use std::sync::{Arc, LockResult, PoisonError};
use vstd::prelude::*;

verus! {

/// `std::sync::mpsc::Sender`, the sending half of an asynchronous channel.
#[verifier::external_type_specification]
#[verifier::external_body]
#[verifier::reject_recursive_types(T)]
pub struct ExSender<T>(Sender<T>);

/// `std::sync::mpsc::SyncSender`, the sending half of a bounded channel.
#[verifier::external_type_specification]
#[verifier::external_body]
#[verifier::reject_recursive_types(T)]
pub struct ExSyncSender<T>(SyncSender<T>);

/// `std::sync::mpsc::SendError`, returned by a send when the receiver is gone.
#[verifier::external_type_specification]
#[verifier::external_body]
#[verifier::reject_recursive_types(T)]
pub struct ExSendError<T>(SendError<T>);

/// `std::sync::mpsc::RecvError`, returned by a receive when no sender is left.
#[verifier::external_type_specification]
#[verifier::external_body]
pub struct ExRecvError(RecvError);

/// `std::sync::PoisonError`, returned by acquiring a lock whose earlier
/// holder panicked.
#[verifier::external_type_specification]
#[verifier::external_body]
#[verifier::reject_recursive_types(T)]
pub struct ExPoisonError<T>(PoisonError<T>);

/// `Rc::clone`: makes another pointer to the same allocation. A pointer
/// stands for what it points to, so the new one equals the old one.
#[verifier::external_body]
fn clone_rc<T>(pointer: &Rc<T>) -> (duplicate: Rc<T>)
    ensures
        duplicate == *pointer,
{
    Rc::clone(pointer)
}

/// `Arc::clone`: makes another pointer to the same allocation. A pointer
/// stands for what it points to, so the new one equals the old one.
#[verifier::external_body]
fn clone_arc<T>(pointer: &Arc<T>) -> (duplicate: Arc<T>)
    ensures
        duplicate == *pointer,
{
    Arc::clone(pointer)
}

/// Sharing an `Rc` gives a pointer to the same allocation.
impl<T> Share for Rc<T> {
    fn share(&self) -> (handle: Self)
        ensures
            handle == *self,
    {
        clone_rc(self)
    }
}

/// Sharing an `Arc` gives a pointer to the same allocation.
impl<T> Share for Arc<T> {
    fn share(&self) -> (handle: Self)
        ensures
            handle == *self,
    {
        clone_arc(self)
    }
}

/// Sharing a `Sender` gives another sender of the same channel.
impl<T> Share for Sender<T> {}

/// Sharing a `SyncSender` gives another sender of the same channel.
impl<T> Share for SyncSender<T> {}

/// The outcome of `Sender::send` and `SyncSender::send`: the error means that
/// the receiver is gone.
impl<T, E> OrClosed for Result<T, SendError<E>> {
    type Value = T;

    open spec fn is_closed(&self) -> bool {
        self is Err
    }

    open spec fn value(&self) -> T {
        self->Ok_0
    }

    fn closed_message(&self) -> (message: Option<&'static str>)
        ensures
            message matches Some(text) ==> text@ == SEND_PANIC_MESSAGE@,
    {
        match self {
            Ok(_) => None,
            Err(_) => Some(SEND_PANIC_MESSAGE),
        }
    }

    fn or_closed(self) -> (value: T)
        ensures
            self == Ok::<T, SendError<E>>(value),
    {
        self.expect(SEND_PANIC_MESSAGE)
    }
}

/// The outcome of `Receiver::recv`: the error means that no sender is left
/// and nothing is waiting to be received.
impl<T> OrClosed for Result<T, RecvError> {
    type Value = T;

    open spec fn is_closed(&self) -> bool {
        self is Err
    }

    open spec fn value(&self) -> T {
        self->Ok_0
    }

    fn closed_message(&self) -> (message: Option<&'static str>)
        ensures
            message matches Some(text) ==> text@ == RECV_PANIC_MESSAGE@,
    {
        match self {
            Ok(_) => None,
            Err(_) => Some(RECV_PANIC_MESSAGE),
        }
    }

    fn or_closed(self) -> (value: T)
        ensures
            self == Ok::<T, RecvError>(value),
    {
        self.expect(RECV_PANIC_MESSAGE)
    }
}

/// The outcome of acquiring a `Mutex` or an `RwLock`: the error means that an
/// earlier holder panicked.
impl<T> OrPoisoned for LockResult<T> {
    type Value = T;

    open spec fn is_poisoned(&self) -> bool {
        self is Err
    }

    open spec fn value(&self) -> T {
        self->Ok_0
    }

    fn poisoned_message(&self) -> (message: Option<&'static str>) {
        match self {
            Ok(_) => None,
            Err(_) => Some(POISON_PANIC_MESSAGE),
        }
    }

    fn or_poisoned(self) -> (value: T)
        ensures
            self == Ok::<T, PoisonError<T>>(value),
    {
        self.expect(POISON_PANIC_MESSAGE)
    }
}

/// Two handles shared from the same `Rc` are linked: each equals the pointer
/// it was shared from, and so the other.
pub proof fn lemma_shared_rc_handles_linked<T>(origin: Rc<T>, first: Rc<T>, second: Rc<T>)
    requires
        call_ensures(<Rc<T> as Share>::share, (&origin,), first),
        call_ensures(<Rc<T> as Share>::share, (&origin,), second),
    ensures
        first == origin,
        second == origin,
        first == second,
{
}

/// Two handles shared from the same `Arc` are linked: each equals the pointer
/// it was shared from, and so the other.
pub proof fn lemma_shared_arc_handles_linked<T>(origin: Arc<T>, first: Arc<T>, second: Arc<T>)
    requires
        call_ensures(<Arc<T> as Share>::share, (&origin,), first),
        call_ensures(<Arc<T> as Share>::share, (&origin,), second),
    ensures
        first == origin,
        second == origin,
        first == second,
{
}

/// A successful send passes through unchanged: `or_closed` admits it and
/// returns exactly the value that it carries.
pub proof fn lemma_successful_send_passes<T, E>(outcome: Result<T, SendError<E>>, returned: T)
    requires
        outcome is Ok,
        call_ensures(<Result<T, SendError<E>> as OrClosed>::or_closed, (outcome,), returned),
    ensures
        !outcome.is_closed(),
        outcome == Ok::<T, SendError<E>>(returned),
{
}

/// Every failed send counts as closed, and its diagnostic is the send-side
/// text.
pub proof fn lemma_failed_send_is_diagnosed<T, E>(
    outcome: Result<T, SendError<E>>,
    message: Option<&'static str>,
)
    requires
        outcome is Err,
        call_ensures(<Result<T, SendError<E>> as OrClosed>::closed_message, (&outcome,), message),
    ensures
        outcome.is_closed(),
        message matches Some(text) && text@ == "sending with disconnected receiver"@,
{
}

/// A successful receive passes through unchanged: `or_closed` admits it and
/// returns exactly the value that it carries.
pub proof fn lemma_successful_receive_passes<T>(outcome: Result<T, RecvError>, returned: T)
    requires
        outcome is Ok,
        call_ensures(<Result<T, RecvError> as OrClosed>::or_closed, (outcome,), returned),
    ensures
        !outcome.is_closed(),
        outcome == Ok::<T, RecvError>(returned),
{
}

/// Every failed receive counts as closed, and its diagnostic is the
/// receive-side text.
pub proof fn lemma_failed_receive_is_diagnosed<T>(
    outcome: Result<T, RecvError>,
    message: Option<&'static str>,
)
    requires
        outcome is Err,
        call_ensures(<Result<T, RecvError> as OrClosed>::closed_message, (&outcome,), message),
    ensures
        outcome.is_closed(),
        message matches Some(text) && text@ == "receiving with no senders"@,
{
}

/// A successful acquisition passes through unchanged: `or_poisoned` admits it
/// and returns exactly the guard that it carries.
pub proof fn lemma_successful_lock_passes<T>(outcome: LockResult<T>, returned: T)
    requires
        outcome is Ok,
        call_ensures(<LockResult<T> as OrPoisoned>::or_poisoned, (outcome,), returned),
    ensures
        !outcome.is_poisoned(),
        outcome == Ok::<T, PoisonError<T>>(returned),
{
}

/// Every failed acquisition counts as poisoned, and its diagnostic is the
/// poisoning text.
pub proof fn lemma_failed_lock_is_diagnosed<T>(
    outcome: LockResult<T>,
    message: Option<&'static str>,
)
    requires
        outcome is Err,
        call_ensures(<LockResult<T> as OrPoisoned>::poisoned_message, (&outcome,), message),
    ensures
        outcome.is_poisoned(),
        message matches Some(text) && text@ == "lock poisoned"@,
{
}

} // verus!
