//! A handle narrowed to one message type.
use vstd::prelude::*;

use crate::traits::{Message, Sender};

verus! {

/// A box that is kept just as it was given: putting it in here is a plain
/// move, whatever is in the box.
struct Held<T: ?Sized>(Box<T>);

/// The ability to send messages of type `M`, and nothing else: neither
/// other messages nor the type of the actor that receives them show.
#[verifier::reject_recursive_types(M)]
pub struct Recipient<M: Message> {
    tx: Held<dyn Sender<M>>,
}

impl<M: Message> Recipient<M> {
    /// A recipient that forwards to `tx`: it answers as `tx` does, and is
    /// owed an answer where `tx` is.
    pub fn new(tx: Box<dyn Sender<M>>) -> (recipient: Self)
        ensures
            forall|msg: M, response: M::Response|
                recipient.answers(msg, response) == tx.answers(msg, response),
            recipient.always_answers() == tx.always_answers(),
    {
        let held = Held(tx);
        Recipient { tx: held }
    }
}

impl<M: Message> Sender<M> for Recipient<M> {
    closed spec fn answers(&self, msg: M, response: M::Response) -> bool {
        self.tx.0.answers(msg, response)
    }

    closed spec fn always_answers(&self) -> bool {
        self.tx.0.always_answers()
    }

    fn do_send(&self, msg: M) {
        self.tx.0.do_send(msg)
    }

    fn send(&self, msg: M) -> (r: Result<M::Response, String>) {
        self.tx.0.send(msg)
    }
}

} // verus!
