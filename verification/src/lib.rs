//! Traits with more semantic method names.
//!
//! Each trait here wraps one existing operation and only gives it a name that
//! says what the caller means:
//!
//! * [`Share`] duplicates a handle that keeps pointing at the same underlying
//!   state, such as a reference-counted pointer or the sending half of a
//!   channel.
//! * [`OrClosed`] takes the value out of the outcome of a channel operation
//!   and treats a disconnected channel as fatal.
//! * [`OrPoisoned`] takes the guard out of the outcome of acquiring a lock and
//!   treats a poisoned lock as fatal.
//!
//! The fatal paths abort with a fixed diagnostic. In verified code they are
//! ruled out by the preconditions of `or_closed` and `or_poisoned`; the
//! methods `closed_message` and `poisoned_message` tell, without aborting,
//! which diagnostic an outcome leads to.
//!
//! The implementations for the standard library and for tokio's channels are
//! in [`impls`].

use vstd::prelude::*;

pub mod impls;

verus! {

/// Diagnostic of a send whose receiving side is gone.
pub const SEND_PANIC_MESSAGE: &'static str = "sending with disconnected receiver";

/// Diagnostic of a receive for which no sender is left.
pub const RECV_PANIC_MESSAGE: &'static str = "receiving with no senders";

/// Diagnostic of acquiring a lock whose earlier holder panicked.
pub const POISON_PANIC_MESSAGE: &'static str = "lock poisoned";

/// The diagnostic tells which condition was fatal: no two of the three texts
/// are the same.
pub proof fn lemma_diagnostics_differ()
    ensures
        SEND_PANIC_MESSAGE@ != RECV_PANIC_MESSAGE@,
        SEND_PANIC_MESSAGE@ != POISON_PANIC_MESSAGE@,
        RECV_PANIC_MESSAGE@ != POISON_PANIC_MESSAGE@,
{
    reveal_strlit("sending with disconnected receiver");
    reveal_strlit("receiving with no senders");
    reveal_strlit("lock poisoned");
    // The texts differ already in length.
    assert(SEND_PANIC_MESSAGE@.len() == 34);
    assert(RECV_PANIC_MESSAGE@.len() == 25);
    assert(POISON_PANIC_MESSAGE@.len() == 13);
}

/// A cheap [`Clone`] with shared reference semantics.
///
/// Implement this for types whose clones point to the same underlying data
/// (like `Rc` and `Arc`) or, more generally, share some kind of state (like
/// the senders of a channel): what happens through one handle is visible
/// through the other. The trait cannot enforce this; it is the implementor's
/// promise.
pub trait Share: Clone {
    /// Returns a second handle to what `self` refers to.
    ///
    /// The result is what the type's own `clone` gives for `self`. An
    /// implementation may promise more, as those for `Rc` and `Arc` do.
    fn share(&self) -> (handle: Self)
        ensures
            cloned::<Self>(*self, handle),
    {
        self.clone()
    }
}

/// Two handles shared from the same origin are linked through it: each is a
/// duplicate of the origin, made by the type's own `clone`.
pub proof fn lemma_shared_handles_stem_from_origin<H: Share>(origin: H, first: H, second: H)
    requires
        call_ensures(H::share, (&origin,), first),
        call_ensures(H::share, (&origin,), second),
    ensures
        cloned::<H>(origin, first),
        cloned::<H>(origin, second),
{
}

/// The texts that stand for a closed channel: one for each direction.
pub open spec fn is_closed_diagnostic(text: Seq<char>) -> bool {
    text == SEND_PANIC_MESSAGE@ || text == RECV_PANIC_MESSAGE@
}

/// Abort when a channel is closed but one side tries to send or receive.
///
/// Implement this for the outcome of a channel operation whose error is
/// returned *if and only if* the channel can never transmit again. An outcome
/// whose error may also stand for a passing condition (an empty or full
/// queue, a timeout, missed messages) must not implement it.
pub trait OrClosed: Sized {
    /// What a successful operation yields.
    type Value;

    /// Whether the operation found the other side of the channel gone.
    spec fn is_closed(&self) -> bool;

    /// The value that the operation yielded; meaningful unless
    /// [`is_closed`](OrClosed::is_closed).
    spec fn value(&self) -> Self::Value;

    /// The diagnostic with which [`or_closed`](OrClosed::or_closed) aborts on
    /// this outcome, or `None` if it returns a value.
    fn closed_message(&self) -> (message: Option<&'static str>)
        ensures
            message is Some <==> self.is_closed(),
            message matches Some(text) ==> is_closed_diagnostic(text@),
    ;

    /// Takes the value out of the outcome.
    ///
    /// A closed channel is fatal: outside verified code the call then aborts
    /// with the text that [`closed_message`](OrClosed::closed_message) gives.
    fn or_closed(self) -> (value: Self::Value)
        requires
            !self.is_closed(),
        ensures
            value == self.value(),
    ;
}

/// The run-time test opens the way: an outcome for which `closed_message`
/// gave no diagnostic is one that `or_closed` admits.
pub proof fn lemma_undiagnosed_channel_is_admitted<R: OrClosed>(
    outcome: R,
    message: Option<&'static str>,
)
    requires
        call_ensures(R::closed_message, (&outcome,), message),
        message is None,
    ensures
        !outcome.is_closed(),
        call_requires(R::or_closed, (outcome,)),
{
}

/// Gets the value out of a lock, aborting if the lock has been poisoned.
pub trait OrPoisoned: Sized {
    /// What a successful acquisition yields.
    type Value;

    /// Whether an earlier holder of the lock panicked while holding it.
    spec fn is_poisoned(&self) -> bool;

    /// The guard that the acquisition yielded; meaningful unless
    /// [`is_poisoned`](OrPoisoned::is_poisoned).
    spec fn value(&self) -> Self::Value;

    /// The diagnostic with which [`or_poisoned`](OrPoisoned::or_poisoned)
    /// aborts on this outcome, or `None` if it returns a value.
    fn poisoned_message(&self) -> (message: Option<&'static str>)
        ensures
            message is Some <==> self.is_poisoned(),
            message matches Some(text) ==> text@ == POISON_PANIC_MESSAGE@,
    ;

    /// Takes the guard out of the outcome.
    ///
    /// A poisoned lock is fatal: outside verified code the call then aborts
    /// with [`POISON_PANIC_MESSAGE`].
    fn or_poisoned(self) -> (value: Self::Value)
        requires
            !self.is_poisoned(),
        ensures
            value == self.value(),
    ;
}

/// The run-time test opens the way: an outcome for which `poisoned_message`
/// gave no diagnostic is one that `or_poisoned` admits.
pub proof fn lemma_undiagnosed_lock_is_admitted<R: OrPoisoned>(
    outcome: R,
    message: Option<&'static str>,
)
    requires
        call_ensures(R::poisoned_message, (&outcome,), message),
        message is None,
    ensures
        !outcome.is_poisoned(),
        call_requires(R::or_poisoned, (outcome,)),
{
}

} // verus!
