//! Outboxes: the producer ends of the channels through which the gateway
//! hands work to the pipelines behind it.
//!
//! The channels are unbounded. A push never waits and nothing is dropped for
//! want of room; the only way for a push to fail is that the consumer of
//! the channel is gone.

use futures::channel::mpsc::SendError;
use futures::channel::mpsc::UnboundedSender;
use vstd::prelude::*;

verus! {

/// `futures::channel::mpsc::UnboundedSender`, taken as an opaque handle.
#[verifier::external_type_specification]
#[verifier::external_body]
#[verifier::reject_recursive_types(T)]
pub struct ExUnboundedSender<T>(UnboundedSender<T>);

/// `futures::channel::mpsc::SendError`, taken as an opaque value.
#[verifier::external_type_specification]
#[verifier::external_body]
pub struct ExSendError(SendError);

/// The consumer of an outbox has shut down.
#[derive(Clone, Copy, Debug, PartialEq, Eq, Structural)]
pub struct ChannelClosed;

/// `UnboundedSender::start_send`: hands `item` to the channel without
/// waiting. Nothing is claimed of the result: whether the channel takes the
/// item depends on whether its receiving end is still there. What is
/// claimed is that the handle stays the handle it was: the call works
/// through a shared borrow of it and changes only the channel behind it.
/// The call panics only if the channel already holds `usize::MAX / 2` items.
#[verifier::external_body]
fn start_send<T>(sender: &mut UnboundedSender<T>, item: T) -> (sent: Result<(), SendError>)
    ensures
        *final(sender) == *old(sender),
{
    sender.start_send(item)
}

/// What the gateway reports for the result of a send.
pub fn delivery(sent: Result<(), SendError>) -> (outcome: Result<(), ChannelClosed>)
    ensures
        outcome is Ok <==> sent is Ok,
{
    match sent {
        Ok(()) => Ok(()),
        Err(_) => Err(ChannelClosed),
    }
}

/// The producer end of one outbox, with its own record of the pushes that
/// the channel reported as taken.
#[verifier::reject_recursive_types(T)]
pub struct Outbox<T> {
    sender: UnboundedSender<T>,
    taken: Ghost<Seq<T>>,
}

impl<T> Outbox<T> {
    /// The handle to the channel that this outbox pushes to.
    pub closed spec fn channel(self) -> UnboundedSender<T> {
        self.sender
    }

    /// The items pushed through this outbox that the channel reported as
    /// taken, oldest first.
    pub closed spec fn taken(self) -> Seq<T> {
        self.taken@
    }

    /// An outbox over `sender` that has taken nothing yet.
    pub fn new(sender: UnboundedSender<T>) -> (outbox: Self)
        ensures
            outbox.channel() == sender,
            outbox.taken() == Seq::<T>::empty(),
    {
        Outbox { sender, taken: Ghost(Seq::empty()) }
    }

    /// Offers `item` to the channel once. The item is taken or the channel
    /// is reported closed; it is never taken twice. The outbox keeps its
    /// channel either way.
    pub fn push(&mut self, item: T) -> (outcome: Result<(), ChannelClosed>)
        ensures
            final(self).channel() == old(self).channel(),
            outcome is Ok ==> final(self).taken() == old(self).taken().push(item),
            outcome is Err ==> final(self).taken() == old(self).taken(),
    {
        let ghost offered = item;
        let outcome = delivery(start_send(&mut self.sender, item));
        if outcome.is_ok() {
            proof {
                self.taken@ = self.taken@.push(offered);
            }
        }
        outcome
    }
}

} // verus!
