//! The unbounded tokio channel that carries events and radio metadata.
use tokio::sync::mpsc::error::TryRecvError;
use tokio::sync::mpsc::{UnboundedReceiver, UnboundedSender};
use tokio::sync::{Mutex, TryLockError};
use vstd::prelude::*;

verus! {

/// The sending half of `tokio::sync::mpsc::unbounded_channel`, carried as an
/// opaque value.
#[verifier::external_type_specification]
#[verifier::external_body]
#[verifier::reject_recursive_types(T)]
pub struct ExUnboundedSender<T>(UnboundedSender<T>);

/// The receiving half of `tokio::sync::mpsc::unbounded_channel`, carried as an
/// opaque value.
#[verifier::external_type_specification]
#[verifier::external_body]
#[verifier::reject_recursive_types(T)]
pub struct ExUnboundedReceiver<T>(UnboundedReceiver<T>);

/// `tokio::sync::Mutex`, carried as an opaque value.
#[verifier::external_type_specification]
#[verifier::external_body]
#[verifier::reject_recursive_types(T)]
pub struct ExMutex<T: ?Sized>(Mutex<T>);

/// The error of `tokio::sync::Mutex::try_lock`, carried as an opaque value.
#[verifier::external_type_specification]
#[verifier::external_body]
pub struct ExTryLockError(TryLockError);

/// The error of `UnboundedReceiver::try_recv`, carried as an opaque value.
#[verifier::external_type_specification]
#[verifier::external_body]
pub struct ExTryRecvError(TryRecvError);

/// A way to send messages, with a record of what was sent.
#[verifier::reject_recursive_types(T)]
pub struct Outbox<T> {
    sender: UnboundedSender<T>,
    log: Ghost<Seq<T>>,
    bounced: Ghost<bool>,
}

impl<T> Outbox<T> {
    /// The messages that were handed to the channel through this outbox, in
    /// order, whether or not the channel took them.
    pub closed spec fn sent(&self) -> Seq<T> {
        self.log@
    }

    /// Whether the channel gave the message that was sent last back.
    pub closed spec fn refused(&self) -> bool {
        self.bounced@
    }

    /// The channel that the messages go to.
    pub closed spec fn channel(&self) -> UnboundedSender<T> {
        self.sender
    }

    /// An outbox for a channel, through which nothing has been sent.
    pub fn new(sender: UnboundedSender<T>) -> (outbox: Outbox<T>)
        ensures
            outbox.channel() == sender,
            outbox.sent() == Seq::<T>::empty(),
            !outbox.refused(),
    {
        Outbox { sender, log: Ghost(Seq::empty()), bounced: Ghost(false) }
    }

    /// `UnboundedSender::send`: hands the message to the channel, which queues
    /// it, or gives the very same message back when the receiving half is
    /// closed. The record says that this message, and no other, was handed
    /// over by the call, and whether it came back. Whether the receiver is closed is up to the task that
    /// owns it, so nothing is said of when the message is taken. (tokio aborts
    /// the process when the count of queued messages overflows `usize`.)
    #[verifier::external_body]
    pub(crate) fn send(&mut self, message: T) -> (r: Result<(), T>)
        ensures
            final(self).channel() == old(self).channel(),
            final(self).sent() == old(self).sent().push(message),
            final(self).refused() == (r is Err),
            r matches Err(returned) ==> returned == message,
    {
        self.sender.send(message).map_err(|e| e.0)
    }
}

/// The outcome of an attempt to take a message out of a shared queue: that of
/// locking it and, once it is locked, that of receiving.
pub type Attempt<T> = Result<Result<T, TryRecvError>, TryLockError>;

/// A way to take messages out of a shared queue, with a record of the attempts
/// that were made.
#[verifier::reject_recursive_types(T)]
pub struct Inbox<'a, T> {
    shared: &'a Mutex<UnboundedReceiver<T>>,
    log: Ghost<Seq<Attempt<T>>>,
}

impl<'a, T> Inbox<'a, T> {
    /// The queue that the messages come from.
    pub closed spec fn queue(&self) -> &'a Mutex<UnboundedReceiver<T>> {
        self.shared
    }

    /// The outcomes of the attempts that were made through this inbox, in
    /// order.
    pub closed spec fn attempts(&self) -> Seq<Attempt<T>> {
        self.log@
    }

    /// An inbox for a queue, through which no attempt has been made.
    pub fn new(queue: &'a Mutex<UnboundedReceiver<T>>) -> (inbox: Inbox<'a, T>)
        ensures
            inbox.queue() == queue,
            inbox.attempts() == Seq::<Attempt<T>>::empty(),
    {
        Inbox { shared: queue, log: Ghost(Seq::empty()) }
    }

    /// `Mutex::try_lock` and, where it gives the guard,
    /// `UnboundedReceiver::try_recv` on the receiver behind it: an error when
    /// another task holds the lock at that moment; else the oldest queued
    /// message, or an error when the channel is empty or disconnected. The
    /// record says that the call made this one attempt and how it ended. Who
    /// holds the lock and what is queued depend on the other tasks, so nothing
    /// is said of which outcome comes.
    #[verifier::external_body]
    pub(crate) fn try_take(&mut self) -> (r: Attempt<T>)
        ensures
            final(self).queue() == old(self).queue(),
            final(self).attempts() == old(self).attempts().push(r),
    {
        match self.shared.try_lock() {
            Ok(mut guard) => Ok(guard.try_recv()),
            Err(held) => Err(held),
        }
    }
}

} // verus!
