//! The execution context of an actor.
use std::marker::PhantomData;
use vstd::prelude::*;

use crate::addr::Addr;
use crate::channel::Channel;
use crate::dispatcher::Dispatcher;
use crate::model::Model;
use crate::traits::Actor;

verus! {

/// What a handler is lent while it runs: the means to stop its own actor.
///
/// The stop signal holds at most one pending request. The dispatch loop looks
/// at it between two envelopes, never while a handler runs.
pub struct Context<A: Actor> {
    stop: bool,
    _p: PhantomData<A>,
}

impl<A: Actor> Context<A> {
    /// Whether a stop has been requested.
    pub closed spec fn stop_requested(&self) -> bool {
        self.stop
    }

    /// A context with no stop requested.
    pub fn new() -> (ctx: Self)
        ensures
            !ctx.stop_requested(),
    {
        Context { stop: false, _p: PhantomData }
    }

    /// Requests that the actor's dispatch loop exit at its next iteration.
    /// Requesting it again changes nothing.
    pub fn stop(&mut self)
        ensures
            final(self).stop_requested(),
    {
        self.stop = true;
    }

    /// Whether a stop has been requested.
    pub fn stopping(&self) -> (b: bool)
        ensures
            b == self.stop_requested(),
    {
        self.stop
    }

    /// Sets up a mailbox and a dispatch loop for `act`, starts it, and
    /// returns its address. The actor begins with no stop requested,
    /// whatever was asked of this context before.
    pub fn run(self, act: A) -> (addr: Addr<A>)
        ensures
            addr.opened() == Model::start(act),
    {
        Addr::new(Channel::open(Dispatcher::start(act)))
    }
}

} // verus!
