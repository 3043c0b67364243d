//! An envelope whose message type is still known.
use tokio::sync::oneshot;
use tokio::sync::oneshot::Sender as ResponseTx;
use vstd::prelude::*;

use crate::context::Context;
use crate::traits::{keeps, Actor, EnvelopeApi, Handler, Message};

verus! {

/// `tokio::sync::oneshot::Sender`, the sending half of tokio's one-shot
/// channel. Nothing inside it is visible here: it is carried from the sender
/// of a message to the place where the answer is known.
#[verifier::external_type_specification]
#[verifier::external_body]
#[verifier::reject_recursive_types(T)]
pub struct ExResponseTx<T>(ResponseTx<T>);

/// Sends `value` with `tokio::sync::oneshot::Sender::send`, which uses the
/// channel up and neither waits nor panics. When the receiving half is gone
/// it answers with `Err` and hands the value back untouched; `Ok` says that
/// the value was stored for the receiver.
#[verifier::external_body]
fn deliver<T>(tx: oneshot::Sender<T>, value: T) -> (r: Result<(), T>)
    ensures
        r matches Err(back) ==> back == value,
{
    tx.send(value)
}

/// One message of type `M` and, where an answer is awaited, the channel that
/// takes it back to whoever asked.
///
/// The message is taken out the first time the envelope is executed, so it is
/// handled at most once, and the channel is used up with it.
pub struct EnvelopeInner<M: Message> {
    pub msg: Option<M>,
    pub tx: Option<oneshot::Sender<M::Response>>,
}

impl<M: Message> EnvelopeInner<M> {
    /// Takes the message out, if it is still there, and runs its handler on
    /// `act`. Returns the handler's answer, or `None` when the message had
    /// been taken before.
    pub fn execute<A: Actor + Handler<M>>(&mut self, act: &mut A, ctx: &mut Context<A>) -> (res:
        Option<M::Response>)
        ensures
            final(self).msg is None,
            final(self).tx == old(self).tx,
            keeps(*old(act), *final(act)),
            old(act).never_stops() ==> final(act).never_stops() && final(ctx).stop_requested()
                == old(ctx).stop_requested(),
            match old(self).msg {
                Some(m) => {
                    &&& *final(act) == old(act).handled(m)
                    &&& res matches Some(response) && old(act).responds(m, response)
                    &&& final(ctx).stop_requested() == (old(ctx).stop_requested() || old(
                        act,
                    ).stops(m))
                },
                None => {
                    &&& *final(act) == *old(act)
                    &&& res is None
                    &&& final(ctx).stop_requested() == old(ctx).stop_requested()
                },
            },
    {
        match self.msg.take() {
            Some(msg) => Some(act.handle(msg, ctx)),
            None => None,
        }
    }
}

impl<A: Actor + Handler<M>, M: Message> EnvelopeApi<A> for EnvelopeInner<M> {
    open spec fn pending(&self) -> bool {
        self.msg is Some
    }

    open spec fn answerable(&self) -> bool {
        self.tx is Some
    }

    open spec fn applied(&self, act: A) -> A {
        match self.msg {
            Some(m) => act.handled(m),
            None => act,
        }
    }

    open spec fn stops(&self, act: A) -> bool {
        match self.msg {
            Some(m) => Handler::<M>::stops(act, m),
            None => false,
        }
    }

    fn handle(&mut self, act: &mut A, ctx: &mut Context<A>) {
        if let Some(res) = self.execute(act, ctx) {
            if let Some(tx) = self.tx.take() {
                let _ = deliver(tx, res);
            }
        }
    }
}

} // verus!
