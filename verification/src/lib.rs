//! An in-process actor runtime.
//!
//! Actors are isolated units of state that talk to each other only through
//! typed messages. A message is packed into an [`Envelope`] that hides its
//! type, queued in the actor's bounded [`Mailbox`], and executed against the
//! actor's state by its [`Dispatcher`], one envelope at a time and in the
//! order of arrival. [`Addr`] and [`Recipient`] are the handles through which
//! messages are sent.
//!
//! What a dispatcher does is laid down in its [`Model`]: every operation is a
//! transition of the model, and the laws of the runtime (first in, first
//! out; no update lost; a request sees what was sent before it; an exited
//! loop never answers) are theorems about those transitions, proved in
//! [`model`].
//!
//! A handle shares its dispatcher with every clone, so it cannot know the
//! state that its message will meet. What it can rely on is what holds of
//! every state. One such thing is the actor's law of change
//! ([`Actor::evolves`]), which every handler keeps to: an answer always
//! comes from a state that the actor's first state could evolve into.
//! [`bank`] shows what that is good for. The other is that an exited loop
//! stays exited, and that a loop never exits where the actor never asks for
//! a stop ([`Actor::never_stops`]): the one is owed an error for ever, the
//! other an answer.
//!
//! Three things are decided here, once and for all:
//!
//! - The runtime is synchronous. A dispatch loop has no thread of its own:
//!   a handle turns it, under the lock that guards the actor, when the
//!   mailbox is full and when it needs an answer. Sending without waiting
//!   for an answer only queues the envelope.
//! - The `started` hook of an actor completes before its first message is
//!   handled.
//! - Where a stop has been requested while envelopes wait, a handle that
//!   turns the loop lets the stop win. The dispatcher itself leaves the
//!   choice to whoever drives it, and its laws hold of every choice.
pub mod addr;
pub mod addr_sender;
pub mod bank;
pub mod channel;
pub mod context;
pub mod counter;
pub mod dispatcher;
pub mod envelope;
pub mod envelope_inner;
pub mod mailbox;
pub mod model;
pub mod my_actor;
pub mod recipient;
pub mod traits;

pub use addr::Addr;
pub use addr_sender::AddrSender;
pub use channel::Channel;
pub use context::Context;
pub use dispatcher::{response_or_error, Dispatcher, Turn, RESPONSE_LOST};
pub use envelope::Envelope;
pub use envelope_inner::EnvelopeInner;
pub use mailbox::{Mailbox, MAILBOX_CAPACITY};
pub use model::{Choice, Model};
pub use recipient::Recipient;
pub use traits::{
    Actor, EnvelopeApi, EnvelopeSender, Handler, Message, Sender, Start, ToEnvelope,
};
