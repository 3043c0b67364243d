//! An envelope whose message type is hidden.
use tokio::sync::oneshot;
use vstd::prelude::*;

use crate::context::Context;
use crate::envelope_inner::EnvelopeInner;
use crate::traits::{Actor, EnvelopeApi, Handler, Message};

verus! {

/// A message on its way to an actor of type `A`, with the message's own type
/// erased: one mailbox can so hold envelopes for every message that `A`
/// handles. It is built where the message type is known and executed where it
/// is not.
#[verifier::reject_recursive_types(A)]
pub struct Envelope<A: Actor>(pub Box<dyn EnvelopeApi<A>>);

impl<A: Actor> Envelope<A> {
    /// Whether this envelope is what `msg` and `tx` make: it is pending
    /// where there is a message and answerable where there is a channel, and
    /// executing it is handling the message.
    pub open spec fn carries<M: Message>(
        self,
        msg: Option<M>,
        tx: Option<oneshot::Sender<M::Response>>,
    ) -> bool where A: Handler<M> {
        &&& self.pending() == (msg is Some)
        &&& self.answerable() == (tx is Some)
        &&& forall|act: A| #[trigger]
            self.applied(act) == (match msg {
                Some(m) => act.handled(m),
                None => act,
            })
        &&& forall|act: A| #[trigger]
            self.stops(act) == (match msg {
                Some(m) => Handler::<M>::stops(act, m),
                None => false,
            })
    }

    /// Hides the message type of `inner`. The envelope behaves as `inner` does.
    pub fn new<M: Message>(inner: Box<EnvelopeInner<M>>) -> (env: Self) where A: Handler<M>
        ensures
            env.carries(inner.msg, inner.tx),
    {
        proof {
            // What `inner` is as an envelope is what the boxed envelope is.
            assert(EnvelopeApi::<A>::pending(&*inner) == (inner.msg is Some));
            assert(EnvelopeApi::<A>::answerable(&*inner) == (inner.tx is Some));
        }
        Envelope(inner)
    }
}

impl<A: Actor> EnvelopeApi<A> for Envelope<A> {
    open spec fn pending(&self) -> bool {
        self.0.pending()
    }

    open spec fn answerable(&self) -> bool {
        self.0.answerable()
    }

    open spec fn applied(&self, act: A) -> A {
        self.0.applied(act)
    }

    open spec fn stops(&self, act: A) -> bool {
        self.0.stops(act)
    }

    fn handle(&mut self, act: &mut A, ctx: &mut Context<A>) {
        self.0.handle(act, ctx)
    }
}

} // verus!
