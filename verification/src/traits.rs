//! What an actor, its messages and its handlers agree on.
use vstd::prelude::*;

use tokio::sync::oneshot;

use crate::addr::Addr;
use crate::channel::Channel;
use crate::context::Context;
use crate::dispatcher::RESPONSE_LOST;
use crate::envelope::Envelope;
use crate::model::Model;

verus! {

/// A message: a typed value together with the type of the answer it asks for.
pub trait Message: Sized + Send + Sync + 'static {
    /// What a handler answers to this message.
    type Response: Send;
}

/// An isolated unit of state that handles messages one at a time.
pub trait Actor: Sized + Send + Sync + 'static {
    /// The law of change of this actor: whether an actor that was in state
    /// `self` can later be in state `later`. Every handler has to keep to
    /// it, so it holds between any two states that the actor is ever in,
    /// whoever sends it what in which order. The body given here allows
    /// every change.
    open spec fn evolves(self, later: Self) -> bool {
        true
    }

    /// Whether an actor in state `self` will never ask for a stop, whatever
    /// it is sent. Every handler has to keep to it: where it holds no
    /// handler asks for a stop, and it holds again of the state that the
    /// handler leaves. The body given here promises nothing.
    open spec fn never_stops(self) -> bool {
        false
    }

    /// Runs once, before the first message is handled.
    fn started(&self) {
    }

    /// Runs once, after the dispatch loop has exited.
    fn stopped(&self) {
    }
}

/// Whether an actor that started in state `origin` can be in state `now`:
/// it is there still, or it has evolved into it.
pub open spec fn reachable<A: Actor>(origin: A, now: A) -> bool {
    origin == now || origin.evolves(now)
}

/// Whether a step from `before` to `after` keeps to the actor's law of
/// change: wherever the actor started, it can be in `after` if it could be in
/// `before`.
pub open spec fn keeps<A: Actor>(before: A, after: A) -> bool {
    forall|origin: A| #[trigger] reachable(origin, before) ==> reachable(origin, after)
}

/// Starting an actor. Every actor can be started.
pub trait Start: Actor {
    /// Starts the actor and returns the address under which it is reached.
    fn start(self) -> (addr: Addr<Self>)
        ensures
            addr.opened() == Model::start(self),
    ;
}

impl<A: Actor> Start for A {
    fn start(self) -> (addr: Addr<Self>) {
        Context::new().run(self)
    }
}

/// Binds a message type to an actor.
///
/// What a handler does depends on the actor's state and the message alone:
/// the three spec functions say what state it leaves, which answers it may
/// give, and whether it asks the actor's dispatch loop to stop. A handler
/// that can fail says so in its response type. Whatever it does keeps to the
/// actor's law of change, and to its promise never to stop where it has
/// made one.
///
/// The bodies given here say nothing. An actor that is to be verified
/// states its own.
pub trait Handler<M: Message>: Actor {
    /// The state in which handling `msg` leaves the actor.
    open spec fn handled(self, msg: M) -> Self {
        arbitrary()
    }

    /// Whether `response` is an answer to `msg`.
    open spec fn responds(self, msg: M, response: M::Response) -> bool {
        arbitrary()
    }

    /// Whether handling `msg` requests a stop.
    open spec fn stops(self, msg: M) -> bool {
        arbitrary()
    }

    fn handle(&mut self, msg: M, ctx: &mut Context<Self>) -> (res: M::Response)
        ensures
            *final(self) == old(self).handled(msg),
            old(self).responds(msg, res),
            final(ctx).stop_requested() == (old(ctx).stop_requested() || old(self).stops(msg)),
            keeps(*old(self), *final(self)),
            old(self).never_stops() ==> !old(self).stops(msg) && final(self).never_stops(),
    ;
}

/// An envelope as the dispatch loop sees it: something to execute against the
/// actor, once, whatever message it carries.
pub trait EnvelopeApi<A: Actor>: Send + Sync {
    /// Whether the message is still inside, waiting to be handled.
    spec fn pending(&self) -> bool;

    /// Whether a response channel is still attached.
    spec fn answerable(&self) -> bool;

    /// The state in which executing this envelope leaves an actor in state `act`.
    spec fn applied(&self, act: A) -> A;

    /// Whether executing this envelope on an actor in state `act` requests a stop.
    spec fn stops(&self, act: A) -> bool;

    /// Takes the message out and runs its handler on `act`. If a response
    /// channel is attached it is used up for the answer. An envelope that has
    /// been executed before does nothing.
    fn handle(&mut self, act: &mut A, ctx: &mut Context<A>)
        ensures
            !final(self).pending(),
            *final(act) == old(self).applied(*old(act)),
            keeps(*old(act), *final(act)),
            old(act).never_stops() ==> final(act).never_stops() && final(ctx).stop_requested()
                == old(ctx).stop_requested(),
            final(ctx).stop_requested() == (old(ctx).stop_requested() || old(self).stops(
                *old(act),
            )),
            old(self).pending() ==> !final(self).answerable(),
            !old(self).pending() ==> {
                &&& *final(act) == *old(act)
                &&& final(ctx).stop_requested() == old(ctx).stop_requested()
                &&& final(self).answerable() == old(self).answerable()
            },
    ;
}

/// The ability to pack a message for an actor of type `A`.
pub trait ToEnvelope<A, M> where A: Actor + Handler<M>, M: Message {
    /// Puts `msg` and the channel for its answer into an envelope for `A`.
    fn pack(&self, msg: Option<M>, tx: Option<oneshot::Sender<M::Response>>) -> (env: Envelope<A>)
        ensures
            env.carries(msg, tx),
    ;
}

/// The ability to send messages of type `M`.
pub trait Sender<M: Message>: Send + Sync {
    /// Whether `response` is an answer that the actor behind this handle
    /// gives to `msg` in a state that it can be in.
    spec fn answers(&self, msg: M, response: M::Response) -> bool;

    /// Whether every request through this handle is owed an answer: the
    /// actor behind it was running when the handle's channel was opened and
    /// never asks for a stop.
    spec fn always_answers(&self) -> bool;

    /// Sends `msg` and does not wait for an answer. When the actor's
    /// dispatch loop has exited the message is dropped without a word.
    fn do_send(&self, msg: M);

    /// Sends `msg` and returns the answer. The error says that no answer
    /// will come: the dispatch loop exited before the message was handled.
    fn send(&self, msg: M) -> (r: Result<M::Response, String>)
        ensures
            self.always_answers() ==> r is Ok,
            match r {
                Ok(response) => self.answers(msg, response),
                Err(error) => error@ == RESPONSE_LOST@,
            },
    ;
}

/// The ability to send envelopes to an actor of type `A`.
pub trait EnvelopeSender<A: Actor> {
    /// A handle to the actor's channel.
    fn get_tx(&self) -> (tx: Channel<A>);

    /// Sends `env` on that channel. An envelope that the channel does not
    /// take is dropped.
    fn send_env(&self, env: Envelope<A>) {
        let tx = self.get_tx();
        let _ = tx.send(env);
    }
}

} // verus!
