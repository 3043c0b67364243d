//! The address of an actor.
use vstd::prelude::*;

use crate::addr_sender::AddrSender;
use crate::channel::Channel;
use crate::recipient::Recipient;
use crate::model::Model;
use crate::traits::{reachable, Actor, Handler, Message, Sender};

verus! {

/// The address of a running actor of type `A`: the handle through which any
/// message that `A` handles is sent to it. Clones are cheap and reach the
/// same actor.
#[verifier::reject_recursive_types(A)]
pub struct Addr<A: Actor> {
    tx: AddrSender<A>,
}

impl<A: Actor> Clone for Addr<A> {
    /// Another address of the same actor.
    fn clone(&self) -> (other: Self)
        ensures
            other == *self,
    {
        Addr::from(self.tx.clone())
    }
}

impl<A: Actor> Addr<A> {
    /// The sender behind this address.
    pub closed spec fn sender(&self) -> AddrSender<A> {
        self.tx
    }

    /// The state in which the actor's dispatcher was when the channel
    /// behind this address was opened.
    pub open spec fn opened(&self) -> Model<A> {
        self.sender().channel().opened()
    }

    /// The state in which the actor behind this address started.
    pub open spec fn origin(&self) -> A {
        self.opened().actor
    }

    /// The address of the actor behind the channel `tx`.
    pub fn new(tx: Channel<A>) -> (addr: Self)
        ensures
            addr.sender().channel() == tx,
    {
        Addr { tx: AddrSender::new(tx) }
    }

    /// The address that sends through `sender`.
    pub fn from(sender: AddrSender<A>) -> (addr: Self)
        ensures
            addr.sender() == sender,
    {
        Addr { tx: sender }
    }

    /// Narrows the address to the one message type `M`. The recipient
    /// reaches the same actor and answers as the address does.
    pub fn recipient<M>(self) -> (recipient: Recipient<M>) where A: Actor + Handler<M>, M: Message
        ensures
            narrows_to(self, recipient),
    {
        proof {
            // The sender behind the address is what the recipient holds, and it
            // answers as the address does.
            assert(Sender::<M>::always_answers(&self.tx) == Sender::<M>::always_answers(&self));
            assert(forall|msg: M, response: M::Response|
                Sender::<M>::answers(&self.tx, msg, response) == Sender::<M>::answers(
                    &self,
                    msg,
                    response,
                ));
        }
        Recipient::new(Box::new(self.tx))
    }
}

/// Whether `recipient` is `addr` narrowed to the message type `M`: it
/// answers as the address does, and is owed an answer where the address is.
pub open spec fn narrows_to<A: Actor + Handler<M>, M: Message>(
    addr: Addr<A>,
    recipient: Recipient<M>,
) -> bool {
    &&& forall|msg: M, response: M::Response|
        recipient.answers(msg, response) == addr.answers(msg, response)
    &&& recipient.always_answers() == Sender::<M>::always_answers(&addr)
}

impl<A, M> Sender<M> for Addr<A> where A: Actor + Handler<M>, M: Message {
    open spec fn answers(&self, msg: M, response: M::Response) -> bool {
        exists|act: A| reachable(self.origin(), act) && #[trigger] act.responds(msg, response)
    }

    open spec fn always_answers(&self) -> bool {
        self.opened().steady()
    }

    fn do_send(&self, msg: M) {
        self.tx.do_send(msg);
    }

    fn send(&self, msg: M) -> (r: Result<M::Response, String>) {
        self.tx.send(msg)
    }
}

impl<A, M> Into<Recipient<M>> for Addr<A> where A: Actor + Handler<M>, M: Message {
    /// The same as [`Addr::recipient`].
    fn into(self) -> (recipient: Recipient<M>)
        ensures
            narrows_to(self, recipient),
    {
        self.recipient()
    }
}

impl<A, M> vstd::std_specs::convert::IntoSpecImpl<Recipient<M>> for Addr<A> where A: Actor + Handler<M>, M: Message {
    /// Nothing is said of the conversion in terms of `into_spec`: what a
    /// recipient is good for is said by [`Addr::recipient`].
    open spec fn obeys_into_spec() -> bool {
        false
    }

    open spec fn into_spec(self) -> Recipient<M> {
        arbitrary()
    }
}

} // verus!
