//! The sending side of a mailbox, shared by every handle to one actor.
use std::sync::Arc;
use vstd::prelude::*;
use vstd::rwlock::{RwLock, RwLockPredicate};

use crate::dispatcher::{Dispatcher, RESPONSE_LOST};
use crate::envelope::Envelope;
use crate::model::Model;
use crate::traits::{reachable, Actor, Handler, Message};

verus! {

/// What the lock around a dispatcher keeps, `opened` being the dispatcher's
/// state when it was put behind the lock: the dispatcher's invariant; that
/// the actor is in a state that it can be in, having been in the state that
/// it was in then; that a loop that was steady then is steady still; and
/// that a loop that had exited then has not come back.
#[verifier::reject_recursive_types(A)]
pub struct Guarded<A: Actor> {
    pub opened: Model<A>,
}

impl<A: Actor> RwLockPredicate<Dispatcher<A>> for Guarded<A> {
    open spec fn inv(self, d: Dispatcher<A>) -> bool {
        &&& d.wf()
        &&& reachable(self.opened.actor, d@.actor)
        &&& self.opened.steady() ==> d@.steady()
        &&& !self.opened.running ==> !d@.running
    }
}

/// `Arc::clone` gives a second pointer to the same allocation: the clone is
/// the value that was cloned.
#[verifier::external_body]
fn share<T>(shared: &Arc<T>) -> (other: Arc<T>)
    ensures
        other == *shared,
{
    Arc::clone(shared)
}

/// A reference-counted handle to one actor's dispatcher.
///
/// Every clone reaches the same dispatcher, and each operation holds the
/// dispatcher's lock from beginning to end: operations through different
/// clones never overlap, and each is one transition of the dispatcher's
/// [`Model`](crate::model::Model). What the dispatcher's state is between
/// two operations depends on who else holds a clone, so all that a handle
/// can promise is what the actor's law of change promises of every state.
///
/// A handler must not use a handle to its own actor: the lock is held while
/// it runs.
#[verifier::reject_recursive_types(A)]
pub struct Channel<A: Actor> {
    shared: Arc<RwLock<Dispatcher<A>, Guarded<A>>>,
}

impl<A: Actor> Clone for Channel<A> {
    /// Another handle to the same dispatcher.
    fn clone(&self) -> (other: Self)
        ensures
            other == *self,
    {
        Channel { shared: share(&self.shared) }
    }
}

impl<A: Actor> Channel<A> {
    /// The state in which the dispatcher was when the channel was opened.
    pub closed spec fn opened(&self) -> Model<A> {
        self.shared.pred().opened
    }

    /// The state in which the actor was when the channel was opened.
    pub open spec fn origin(&self) -> A {
        self.opened().actor
    }

    /// Puts `dispatcher` behind a lock and returns the first handle to it.
    pub fn open(dispatcher: Dispatcher<A>) -> (channel: Self)
        requires
            dispatcher.wf(),
        ensures
            channel.opened() == dispatcher@,
    {
        let ghost opened = dispatcher@;
        Channel { shared: Arc::new(RwLock::new(dispatcher, Ghost(Guarded { opened }))) }
    }

    /// Hands `env` to the dispatcher, which accepts it as
    /// [`Dispatcher::accept`] says. The envelope is taken where the loop
    /// was steady when the channel was opened: such a loop never exits. It
    /// comes back where the loop had exited by then: such a loop never takes
    /// anything again. In between, whether it is taken depends on what the
    /// actor has been sent through other handles.
    pub fn send(&self, env: Envelope<A>) -> (r: Result<(), Envelope<A>>)
        ensures
            self.opened().steady() ==> r is Ok,
            !self.opened().running ==> r is Err,
            r matches Err(back) ==> back == env,
    {
        let (mut dispatcher, guard) = self.shared.acquire_write();
        let r = dispatcher.accept(env);
        guard.release_write(dispatcher);
        r
    }

    /// Asks the actor as [`Dispatcher::ask`] says. An answer is one that the
    /// handler of `msg` gives in the state that the actor is in when the
    /// request's turn comes: a state that it can be in, having started in
    /// the channel's origin. An answer is owed where the loop was steady
    /// when the channel was opened, and an error where it had exited by
    /// then.
    pub fn request<M: Message>(&self, msg: M) -> (r: Result<M::Response, String>) where
        A: Handler<M>,

        ensures
            self.opened().steady() ==> r is Ok,
            !self.opened().running ==> r is Err,
            match r {
                Ok(response) => exists|act: A|
                    reachable(self.origin(), act) && #[trigger] act.responds(msg, response),
                Err(error) => error@ == RESPONSE_LOST@,
            },
    {
        let (mut dispatcher, guard) = self.shared.acquire_write();
        let r = dispatcher.ask(msg);
        guard.release_write(dispatcher);
        r
    }
}

} // verus!
