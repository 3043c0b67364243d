//! A counter, as an example of an actor.
use vstd::prelude::*;

use crate::addr::Addr;
use crate::context::Context;
use crate::dispatcher::response_or_error;
use crate::model::Model;
use crate::traits::{Actor, Handler, Message, Sender, Start};

verus! {

/// What a counter can be told.
pub enum CounterMessage {
    /// Count one up.
    Increment,
    /// Count one down.
    Decrement,
    /// Say how far the count has come.
    GetCount,
}

impl Message for CounterMessage {
    /// The count, for `GetCount`; the other messages are not answered.
    type Response = Option<u32>;
}

/// The count that `msg` makes of `count`. It wraps around at both ends.
pub open spec fn counted(count: u32, msg: CounterMessage) -> u32 {
    match msg {
        CounterMessage::Increment => if count == u32::MAX {
            0
        } else {
            (count + 1) as u32
        },
        CounterMessage::Decrement => if count == 0 {
            u32::MAX
        } else {
            (count - 1) as u32
        },
        CounterMessage::GetCount => count,
    }
}

/// What a counter at `count` answers to `msg`.
pub open spec fn reported(count: u32, msg: CounterMessage) -> Option<u32> {
    match msg {
        CounterMessage::GetCount => Some(count),
        _ => None,
    }
}

/// An actor that counts.
pub struct Counter {
    pub count: u32,
}

impl Counter {
    /// A counter at zero.
    pub fn new() -> (counter: Self)
        ensures
            counter.count == 0,
    {
        Counter { count: 0 }
    }

    /// Applies `msg` to the count and returns the answer, if `msg` asks for
    /// one.
    pub fn handle_message(&mut self, msg: CounterMessage) -> (answer: Option<u32>)
        ensures
            final(self).count == counted(old(self).count, msg),
            answer == reported(old(self).count, msg),
    {
        match msg {
            CounterMessage::Increment => {
                self.count = self.count.wrapping_add(1);
                None
            },
            CounterMessage::Decrement => {
                self.count = self.count.wrapping_sub(1);
                None
            },
            CounterMessage::GetCount => Some(self.count),
        }
    }
}

impl Actor for Counter {
    /// A counter never asks for a stop.
    open spec fn never_stops(self) -> bool {
        true
    }
}

impl Handler<CounterMessage> for Counter {
    open spec fn handled(self, msg: CounterMessage) -> Self {
        Counter { count: counted(self.count, msg) }
    }

    open spec fn responds(self, msg: CounterMessage, response: Option<u32>) -> bool {
        response == reported(self.count, msg)
    }

    open spec fn stops(self, msg: CounterMessage) -> bool {
        false
    }

    fn handle(&mut self, msg: CounterMessage, ctx: &mut Context<Self>) -> (res: Option<u32>) {
        self.handle_message(msg)
    }
}

/// A handle to a running counter.
pub struct CounterHandle {
    sender: Addr<Counter>,
}

impl Clone for CounterHandle {
    /// Another handle to the same counter.
    fn clone(&self) -> (other: Self)
        ensures
            other == *self,
    {
        CounterHandle { sender: self.sender.clone() }
    }
}

impl CounterHandle {
    /// The address of the counter.
    pub closed spec fn addr(&self) -> Addr<Counter> {
        self.sender
    }

    /// Starts a counter at zero and returns a handle to it.
    pub fn new() -> (handle: Self)
        ensures
            handle.addr().opened() == Model::start(Counter { count: 0 }),
    {
        CounterHandle { sender: Counter::new().start() }
    }

    /// Tells the counter `msg` and does not wait for an answer.
    pub fn do_send(&self, msg: CounterMessage) {
        self.sender.do_send(msg)
    }

    /// Tells the counter `msg` and returns the count that it answers. A
    /// message that the counter does not answer gives the error of a lost
    /// response, as does a counter whose loop has exited. A counter that was
    /// started by [`CounterHandle::new`] always answers `GetCount`.
    pub fn send(&self, msg: CounterMessage) -> (r: Result<u32, String>)
        ensures
            r matches Err(error) ==> error@ == crate::dispatcher::RESPONSE_LOST@,
            r is Ok ==> msg is GetCount,
            msg is GetCount && self.addr().opened().steady() ==> r is Ok,
    {
        match self.sender.send(msg) {
            Ok(answer) => response_or_error(answer),
            Err(error) => Err(error),
        }
    }
}

impl Default for CounterHandle {
    /// The same as [`CounterHandle::new`].
    fn default() -> (handle: Self)
        ensures
            handle.addr().opened() == Model::start(Counter { count: 0 }),
    {
        Self::new()
    }
}

} // verus!
