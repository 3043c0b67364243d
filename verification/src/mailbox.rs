//! The queue in front of an actor.
use std::collections::VecDeque;
use vstd::prelude::*;

use crate::envelope::Envelope;
use crate::traits::Actor;

verus! {

/// How many envelopes a mailbox holds at most.
pub const MAILBOX_CAPACITY: usize = 100;

/// A bounded first-in-first-out queue of envelopes for one actor.
///
/// Its view is the sequence of waiting envelopes, oldest first.
#[verifier::reject_recursive_types(A)]
pub struct Mailbox<A: Actor> {
    queue: VecDeque<Envelope<A>>,
}

impl<A: Actor> View for Mailbox<A> {
    type V = Seq<Envelope<A>>;

    closed spec fn view(&self) -> Seq<Envelope<A>> {
        self.queue@
    }
}

impl<A: Actor> Mailbox<A> {
    /// A mailbox never holds more than [`MAILBOX_CAPACITY`] envelopes.
    pub open spec fn wf(&self) -> bool {
        self@.len() <= MAILBOX_CAPACITY
    }

    /// An empty mailbox.
    pub fn new() -> (mailbox: Self)
        ensures
            mailbox.wf(),
            mailbox@ == Seq::<Envelope<A>>::empty(),
    {
        Mailbox { queue: VecDeque::new() }
    }

    /// The number of waiting envelopes.
    pub fn len(&self) -> (n: usize)
        ensures
            n == self@.len(),
    {
        self.queue.len()
    }

    /// Whether no envelope is waiting.
    pub fn is_empty(&self) -> (b: bool)
        ensures
            b == (self@.len() == 0),
    {
        self.queue.len() == 0
    }

    /// Whether the mailbox has no room left.
    pub fn is_full(&self) -> (b: bool)
        ensures
            b == (self@.len() >= MAILBOX_CAPACITY),
    {
        self.queue.len() >= MAILBOX_CAPACITY
    }

    /// Puts `env` behind the waiting envelopes. A full mailbox takes nothing
    /// and gives the envelope back.
    pub fn enqueue(&mut self, env: Envelope<A>) -> (r: Result<(), Envelope<A>>)
        requires
            old(self).wf(),
        ensures
            final(self).wf(),
            match r {
                Ok(()) => old(self)@.len() < MAILBOX_CAPACITY && final(self)@ == old(self)@.push(
                    env,
                ),
                Err(back) => old(self)@.len() == MAILBOX_CAPACITY && back == env && final(self)@
                    == old(self)@,
            },
    {
        if self.queue.len() < MAILBOX_CAPACITY {
            self.queue.push_back(env);
            Ok(())
        } else {
            Err(env)
        }
    }

    /// Takes out the envelope that has waited longest, if there is one.
    pub fn dequeue(&mut self) -> (r: Option<Envelope<A>>)
        requires
            old(self).wf(),
        ensures
            final(self).wf(),
            match r {
                Some(env) => old(self)@.len() > 0 && env == old(self)@.first() && final(self)@
                    == old(self)@.drop_first(),
                None => old(self)@.len() == 0 && final(self)@ == old(self)@,
            },
    {
        self.queue.pop_front()
    }

    /// Drops every waiting envelope, unexecuted.
    pub fn clear(&mut self)
        ensures
            final(self).wf(),
            final(self)@ == Seq::<Envelope<A>>::empty(),
    {
        self.queue.clear();
    }
}

} // verus!
