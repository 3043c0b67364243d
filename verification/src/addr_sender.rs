//! The sender behind an address.
use tokio::sync::oneshot;
use vstd::prelude::*;

use crate::channel::Channel;
use crate::envelope::Envelope;
use crate::envelope_inner::EnvelopeInner;
use crate::traits::{reachable, Actor, EnvelopeSender, Handler, Message, Sender, ToEnvelope};

verus! {

/// A sender bound to one actor: it packs messages into envelopes for that
/// actor and sends them on the actor's channel.
#[verifier::reject_recursive_types(A)]
pub struct AddrSender<A: Actor> {
    tx: Channel<A>,
}

impl<A: Actor> Clone for AddrSender<A> {
    /// Another sender on the same channel.
    fn clone(&self) -> (other: Self)
        ensures
            other == *self,
    {
        AddrSender::new(self.tx.clone())
    }
}

impl<A: Actor> AddrSender<A> {
    /// The channel on which this sender sends.
    pub closed spec fn channel(&self) -> Channel<A> {
        self.tx
    }

    /// A sender on `tx`.
    pub fn new(tx: Channel<A>) -> (sender: Self)
        ensures
            sender.channel() == tx,
    {
        AddrSender { tx }
    }
}

impl<A: Actor> EnvelopeSender<A> for AddrSender<A> {
    fn get_tx(&self) -> (tx: Channel<A>)
        ensures
            tx == self.channel(),
    {
        self.tx.clone()
    }
}

impl<A, M> ToEnvelope<A, M> for AddrSender<A> where A: Actor + Handler<M>, M: Message {
    fn pack(&self, msg: Option<M>, tx: Option<oneshot::Sender<M::Response>>) -> (env: Envelope<A>) {
        Envelope::new(Box::new(EnvelopeInner { msg, tx }))
    }
}

impl<A, M> Sender<M> for AddrSender<A> where A: Actor + Handler<M>, M: Message {
    open spec fn answers(&self, msg: M, response: M::Response) -> bool {
        exists|act: A| reachable(self.channel().origin(), act) && #[trigger] act.responds(msg, response)
    }

    open spec fn always_answers(&self) -> bool {
        self.channel().opened().steady()
    }

    /// Packs `msg` without a response channel and sends the envelope.
    fn do_send(&self, msg: M) {
        self.send_env(self.pack(Some(msg), None))
    }

    /// Has `msg` handled in its turn, after everything that was sent on the
    /// channel before it.
    fn send(&self, msg: M) -> (r: Result<M::Response, String>) {
        self.tx.request(msg)
    }
}

} // verus!
