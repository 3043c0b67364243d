//! A greeter, as an example of an actor that answers.
use vstd::prelude::*;
use vstd::string::StringExecFns;

use crate::addr::Addr;
use crate::context::Context;
use crate::dispatcher::RESPONSE_LOST;
use crate::model::Model;
use crate::traits::{Actor, Handler, Message, Sender, Start};

verus! {

/// What a greeter can be asked.
pub enum ActorMessage {
    /// Greet the one called `name`.
    Greet { name: String },
}

impl Message for ActorMessage {
    /// The greeting.
    type Response = String;
}

/// The greeting for `name`.
pub open spec fn greeting(name: Seq<char>) -> Seq<char> {
    "Hello "@ + name + "!"@
}

/// An actor that greets. It has no state of its own.
pub struct MyActor;

impl MyActor {
    /// A greeter.
    pub fn new() -> Self {
        MyActor
    }

    /// Answers `msg`.
    pub fn handle_message(&mut self, msg: ActorMessage) -> (answer: String)
        ensures
            answer@ == greeting(msg->name@),
    {
        match msg {
            ActorMessage::Greet { name } => {
                let mut answer = "Hello ".to_owned();
                answer.append(name.as_str());
                answer.append("!");
                answer
            },
        }
    }
}

impl Actor for MyActor {
    /// A greeter never asks for a stop.
    open spec fn never_stops(self) -> bool {
        true
    }
}

impl Handler<ActorMessage> for MyActor {
    open spec fn handled(self, msg: ActorMessage) -> Self {
        self
    }

    open spec fn responds(self, msg: ActorMessage, response: String) -> bool {
        response@ == greeting(msg->name@)
    }

    open spec fn stops(self, msg: ActorMessage) -> bool {
        false
    }

    fn handle(&mut self, msg: ActorMessage, ctx: &mut Context<Self>) -> (res: String) {
        self.handle_message(msg)
    }
}

/// A handle to a running greeter.
pub struct MyActorHandle {
    sender: Addr<MyActor>,
}

impl Clone for MyActorHandle {
    /// Another handle to the same greeter.
    fn clone(&self) -> (other: Self)
        ensures
            other == *self,
    {
        MyActorHandle { sender: self.sender.clone() }
    }
}

impl MyActorHandle {
    /// The address of the greeter.
    pub closed spec fn addr(&self) -> Addr<MyActor> {
        self.sender
    }

    /// Starts a greeter and returns a handle to it: the greeter runs, with
    /// nothing waiting and no stop requested.
    pub fn new() -> (handle: Self)
        ensures
            handle.addr().opened() == Model::start(MyActor),
    {
        MyActorHandle { sender: MyActor::new().start() }
    }

    /// Asks the greeter to greet `name` and returns the greeting. The error
    /// says that the greeter's loop has exited, which that of a greeter
    /// started by [`MyActorHandle::new`] never does.
    pub fn greet(&self, name: &str) -> (r: Result<String, String>)
        ensures
            self.addr().opened().steady() ==> r is Ok,
            match r {
                Ok(answer) => answer@ == greeting(name@),
                Err(error) => error@ == RESPONSE_LOST@,
            },
    {
        self.sender.send(ActorMessage::Greet { name: name.to_owned() })
    }
}

impl Default for MyActorHandle {
    /// The same as [`MyActorHandle::new`].
    fn default() -> (handle: Self)
        ensures
            handle.addr().opened() == Model::start(MyActor),
    {
        Self::new()
    }
}

} // verus!
