//! The shared peer context: what every connection of a running node works
//! with, made once and never copied.

use crate::outbox::{ChannelClosed, Outbox};
use crate::router::Parcel;
use futures::channel::mpsc::UnboundedSender;
use futures::executor::ThreadPool;
use futures::lock::Mutex;
use std::sync::Arc;
use vstd::prelude::*;

verus! {

/// `futures::executor::ThreadPool`, taken as an opaque handle.
#[verifier::external_type_specification]
#[verifier::external_body]
pub struct ExThreadPool(ThreadPool);

/// `futures::lock::Mutex`, taken as an opaque handle.
#[verifier::external_type_specification]
#[verifier::external_body]
#[verifier::reject_recursive_types(T)]
pub struct ExMutex<T: ?Sized>(Mutex<T>);

/// The gateway's shared context. `W` is the state view that queries read,
/// `A` an accepted transaction and `M` a peer message.
#[verifier::reject_recursive_types(W)]
#[verifier::reject_recursive_types(A)]
#[verifier::reject_recursive_types(M)]
pub struct Torii<W, A, M> {
    url: String,
    pool_ref: ThreadPool,
    world_state_view: Arc<Mutex<W>>,
    transaction_sender: Outbox<A>,
    message_sender: Outbox<M>,
}

impl<W, A, M> Torii<W, A, M> {
    /// The address the gateway listens on.
    pub closed spec fn address(self) -> Seq<char> {
        self.url@
    }

    /// The pool on which connections are served.
    pub closed spec fn workers(self) -> ThreadPool {
        self.pool_ref
    }

    /// The handle to the state view and its lock.
    pub closed spec fn state_view(self) -> Arc<Mutex<W>> {
        self.world_state_view
    }

    /// The handle to the channel of accepted transactions.
    pub closed spec fn transaction_channel(self) -> UnboundedSender<A> {
        self.transaction_sender.channel()
    }

    /// The handle to the channel of peer messages.
    pub closed spec fn message_channel(self) -> UnboundedSender<M> {
        self.message_sender.channel()
    }

    /// The accepted transactions handed to the transaction outbox so far.
    pub closed spec fn transactions(self) -> Seq<A> {
        self.transaction_sender.taken()
    }

    /// The peer messages handed to the message outbox so far.
    pub closed spec fn messages(self) -> Seq<M> {
        self.message_sender.taken()
    }

    /// The context of a node that listens on `url`, runs its connections on
    /// `pool_ref`, answers queries from `world_state_view` and feeds the two
    /// pipelines behind `transaction_sender` and `message_sender`. It holds
    /// exactly the handles it is given and has sent nothing.
    pub fn new(
        url: &str,
        pool_ref: ThreadPool,
        world_state_view: Arc<Mutex<W>>,
        transaction_sender: UnboundedSender<A>,
        message_sender: UnboundedSender<M>,
    ) -> (torii: Self)
        ensures
            torii.address() == url@,
            torii.workers() == pool_ref,
            torii.state_view() == world_state_view,
            torii.transaction_channel() == transaction_sender,
            torii.message_channel() == message_sender,
            torii.transactions() == Seq::<A>::empty(),
            torii.messages() == Seq::<M>::empty(),
    {
        Torii {
            url: url.to_owned(),
            pool_ref,
            world_state_view,
            transaction_sender: Outbox::new(transaction_sender),
            message_sender: Outbox::new(message_sender),
        }
    }

    /// The address the gateway listens on.
    pub fn url(&self) -> (url: &str)
        ensures
            url@ == self.address(),
    {
        self.url.as_str()
    }

    /// The pool on which connections are served.
    pub fn pool(&self) -> (pool: &ThreadPool)
        ensures
            *pool == self.workers(),
    {
        &self.pool_ref
    }

    /// The state view, behind the lock that a query holds while it executes.
    pub fn world_state_view(&self) -> (view: &Arc<Mutex<W>>)
        ensures
            *view == self.state_view(),
    {
        &self.world_state_view
    }

    /// Pushes `parcel` onto the outbox of its kind, once. The context keeps
    /// every handle it holds.
    pub fn forward(&mut self, parcel: Parcel<A, M>) -> (outcome: Result<(), ChannelClosed>)
        ensures
            final(self).address() == old(self).address(),
            final(self).workers() == old(self).workers(),
            final(self).state_view() == old(self).state_view(),
            final(self).transaction_channel() == old(self).transaction_channel(),
            final(self).message_channel() == old(self).message_channel(),
            final(self).transactions() == match (parcel, outcome) {
                (Parcel::Transaction(accepted), Ok(_)) => old(self).transactions().push(accepted),
                _ => old(self).transactions(),
            },
            final(self).messages() == match (parcel, outcome) {
                (Parcel::Message(message), Ok(_)) => old(self).messages().push(message),
                _ => old(self).messages(),
            },
    {
        match parcel {
            Parcel::Transaction(accepted) => self.transaction_sender.push(accepted),
            Parcel::Message(message) => self.message_sender.push(message),
        }
    }
}

} // verus!
