//! The dispatch loop of one actor and its lifecycle.
use vstd::prelude::*;

use crate::context::Context;
use crate::envelope::Envelope;
use crate::envelope_inner::EnvelopeInner;
use crate::mailbox::Mailbox;
use crate::model::{lemma_drain_settles, Model};
use crate::traits::{keeps, Actor, EnvelopeApi, Handler, Message};

verus! {

/// What one iteration of the dispatch loop did.
#[derive(Clone, Copy, Debug, PartialEq, Eq)]
pub enum Turn {
    /// An envelope was executed.
    Executed,
    /// A stop request was observed: the loop has exited.
    Exited,
    /// There was nothing to do.
    Idle,
}

/// The owner of an actor's state: it holds the mailbox, runs the dispatch
/// loop and keeps track of the actor's lifecycle.
///
/// Envelopes are executed one at a time, each to its end before the next, in
/// the order in which they were accepted.
#[verifier::reject_recursive_types(A)]
pub struct Dispatcher<A: Actor> {
    actor: A,
    mailbox: Mailbox<A>,
    ctx: Context<A>,
    running: bool,
}

impl<A: Actor> View for Dispatcher<A> {
    type V = Model<A>;

    closed spec fn view(&self) -> Model<A> {
        Model {
            actor: self.actor,
            queue: self.mailbox@,
            stopping: self.ctx.stop_requested(),
            running: self.running,
        }
    }
}

impl<A: Actor> Dispatcher<A> {
    /// The invariant of a dispatcher: that of its model.
    pub open spec fn wf(&self) -> bool {
        self@.wf()
    }

    /// Takes over `act` and starts it: the `started` hook runs to its end,
    /// then the loop is ready for the first envelope.
    pub fn start(act: A) -> (d: Self)
        ensures
            d.wf(),
            d@ == Model::start(act),
    {
        act.started();
        Dispatcher { actor: act, mailbox: Mailbox::new(), ctx: Context::new(), running: true }
    }

    /// Whether the loop has not exited.
    pub fn is_running(&self) -> (b: bool)
        ensures
            b == self@.running,
    {
        self.running
    }

    /// Whether a stop has been requested.
    pub fn is_stopping(&self) -> (b: bool)
        ensures
            b == self@.stopping,
    {
        self.ctx.stopping()
    }

    /// The number of envelopes that wait.
    pub fn waiting(&self) -> (n: usize)
        ensures
            n == self@.queue.len(),
    {
        self.mailbox.len()
    }

    /// The actor's state as it is now.
    pub fn actor(&self) -> (act: &A)
        ensures
            *act == self@.actor,
    {
        &self.actor
    }

    /// Requests a stop. The loop exits at its next iteration.
    pub fn stop(&mut self)
        requires
            old(self).wf(),
        ensures
            final(self).wf(),
            final(self)@ == old(self)@.stop(),
    {
        self.ctx.stop();
    }

    /// Executes the envelope that has waited longest, to its end, whether
    /// or not a stop has been requested. Says whether there was one.
    pub fn serve(&mut self) -> (served: bool)
        requires
            old(self).wf(),
        ensures
            final(self).wf(),
            final(self)@ == old(self)@.serve(),
            keeps(old(self)@.actor, final(self)@.actor),
            old(self)@.steady() ==> final(self)@.steady(),
            served == (old(self)@.running && old(self)@.queue.len() > 0),
    {
        if !self.running {
            return false;
        }
        match self.mailbox.dequeue() {
            Some(mut env) => {
                env.handle(&mut self.actor, &mut self.ctx);
                true
            },
            None => false,
        }
    }

    /// Observes a requested stop: the loop exits, the waiting envelopes are
    /// dropped unexecuted and the `stopped` hook runs. Says whether the loop
    /// has exited by this call.
    pub fn exit(&mut self) -> (exited: bool)
        requires
            old(self).wf(),
        ensures
            final(self).wf(),
            final(self)@ == old(self)@.exit(),
            exited == (old(self)@.running && old(self)@.stopping),
    {
        if self.running && self.ctx.stopping() {
            self.mailbox.clear();
            self.running = false;
            self.actor.stopped();
            true
        } else {
            false
        }
    }

    /// One iteration of the loop that looks for a stop first: it exits
    /// where a stop has been requested, and serves the oldest envelope
    /// otherwise.
    pub fn dispatch(&mut self) -> (turn: Turn)
        requires
            old(self).wf(),
        ensures
            final(self).wf(),
            final(self)@ == old(self)@.dispatch(),
            keeps(old(self)@.actor, final(self)@.actor),
            old(self)@.steady() ==> final(self)@.steady(),
            turn == Turn::Exited <==> old(self)@.running && old(self)@.stopping,
            turn == Turn::Executed <==> old(self)@.running && !old(self)@.stopping && old(
                self,
            )@.queue.len() > 0,
    {
        if self.exit() {
            Turn::Exited
        } else if self.serve() {
            Turn::Executed
        } else {
            Turn::Idle
        }
    }

    /// Turns the loop until nothing is left for it to do: every waiting
    /// envelope has been executed, or the loop has exited.
    pub fn drain(&mut self)
        requires
            old(self).wf(),
        ensures
            final(self).wf(),
            final(self)@ == old(self)@.drain(),
            keeps(old(self)@.actor, final(self)@.actor),
            old(self)@.steady() ==> final(self)@.steady(),
    {
        loop
            invariant
                self.wf(),
                self@.drain() == old(self)@.drain(),
                keeps(old(self)@.actor, self@.actor),
                old(self)@.steady() ==> self@.steady(),
            ensures
                self.wf(),
                self@ == old(self)@.drain(),
                keeps(old(self)@.actor, self@.actor),
                old(self)@.steady() ==> self@.steady(),
            decreases self@.queue.len() + (if self@.running { 1nat } else { 0nat }),
        {
            if !self.running || (!self.ctx.stopping() && self.mailbox.is_empty()) {
                break ;
            }
            self.dispatch();
        }
    }

    /// Takes in an envelope. Where the mailbox is full, one iteration of the
    /// loop makes room first. The envelope comes back when the loop has
    /// exited: nothing will ever execute it.
    pub fn accept(&mut self, env: Envelope<A>) -> (r: Result<(), Envelope<A>>)
        requires
            old(self).wf(),
        ensures
            final(self).wf(),
            final(self)@ == old(self)@.accept(env),
            keeps(old(self)@.actor, final(self)@.actor),
            old(self)@.steady() ==> final(self)@.steady(),
            r is Ok <==> old(self)@.accepts(),
            r matches Err(back) ==> back == env,
    {
        if self.mailbox.is_full() {
            self.dispatch();
        }
        if self.running {
            assert(self@.queue.push(env) =~= self@.queue + seq![env]);
            self.mailbox.enqueue(env)
        } else {
            Err(env)
        }
    }

    /// Asks the actor: what waits is worked off first, then `msg` is
    /// handled and its answer returned. There is no answer when the loop has
    /// exited, before the call or while working off what waited.
    pub fn ask<M: Message>(&mut self, msg: M) -> (r: Result<M::Response, String>) where
        A: Handler<M>,

        requires
            old(self).wf(),
        ensures
            final(self).wf(),
            final(self)@ == old(self)@.ask(msg),
            keeps(old(self)@.actor, final(self)@.actor),
            old(self)@.steady() ==> final(self)@.steady() && r is Ok,
            match r {
                Ok(response) => old(self)@.answering() matches Some(act) && act.responds(
                    msg,
                    response,
                ) && keeps(old(self)@.actor, act),
                Err(error) => old(self)@.answering() is None && error@ == RESPONSE_LOST@,
            },
    {
        self.drain();
        proof {
            lemma_drain_settles(old(self)@);
        }
        if !self.running {
            return response_or_error(None);
        }
        let mut inner = EnvelopeInner { msg: Some(msg), tx: None };
        let response = inner.execute(&mut self.actor, &mut self.ctx);
        self.drain();
        response_or_error(response)
    }
}

/// What a sender is told when no answer will come.
pub const RESPONSE_LOST: &'static str = "Error receiving response";

/// The result of a request: the answer where one came, the error where the
/// response channel closed without one.
pub fn response_or_error<R>(outcome: Option<R>) -> (r: Result<R, String>)
    ensures
        match outcome {
            Some(response) => r == Ok::<R, String>(response),
            None => r matches Err(error) && error@ == RESPONSE_LOST@,
        },
{
    match outcome {
        Some(response) => Ok(response),
        None => Err(RESPONSE_LOST.to_owned()),
    }
}

} // verus!
