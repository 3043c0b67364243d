//! The mathematics of a dispatch loop: its states, its transitions, and what
//! follows from them.
use tokio::sync::oneshot;
use vstd::prelude::*;

use crate::envelope::Envelope;
use crate::mailbox::MAILBOX_CAPACITY;
use crate::traits::{Actor, EnvelopeApi, Handler, Message};

verus! {

/// An actor together with its mailbox and its dispatch loop, as a
/// mathematical value. Every operation of a [`Dispatcher`] is one of the
/// transitions below.
///
/// The loop is `running` from the start of the actor until it observes a stop
/// request; after that it never runs again. `stopping` says that a stop has
/// been requested.
///
/// When a stop has been requested while envelopes wait, the loop has two
/// things that it can do next: [`serve`](Model::serve) the oldest envelope
/// or [`exit`](Model::exit). Which of them it does is not laid down here. An
/// iteration by [`dispatch`](Model::dispatch) exits; a loop that is driven
/// from outside may as well serve, and what holds of every such
/// [`Choice`] is proved below.
#[verifier::reject_recursive_types(A)]
pub struct Model<A: Actor> {
    pub actor: A,
    pub queue: Seq<Envelope<A>>,
    pub stopping: bool,
    pub running: bool,
}

impl<A: Actor> Model<A> {
    /// The mailbox is within its capacity, and a loop that has exited was
    /// asked to stop and has left nothing waiting.
    pub open spec fn wf(self) -> bool {
        &&& self.queue.len() <= MAILBOX_CAPACITY
        &&& !self.running ==> self.stopping && self.queue.len() == 0
    }

    /// The loop runs, no stop has been requested, and the actor will never
    /// ask for one: a loop like this one goes on for ever.
    pub open spec fn steady(self) -> bool {
        self.running && !self.stopping && self.actor.never_stops()
    }

    /// A freshly started actor: running, nothing waiting, no stop requested.
    pub open spec fn start(act: A) -> Self {
        Model { actor: act, queue: Seq::empty(), stopping: false, running: true }
    }

    /// A stop is requested.
    pub open spec fn stop(self) -> Self {
        Model { stopping: true, ..self }
    }

    /// `envs` join the waiting envelopes, unless the loop has exited.
    pub open spec fn extend(self, envs: Seq<Envelope<A>>) -> Self {
        if self.running {
            Model { queue: self.queue + envs, ..self }
        } else {
            self
        }
    }

    /// The oldest envelope, if there is one, is executed to its end, whether
    /// or not a stop has been requested.
    pub open spec fn serve(self) -> Self {
        if !self.running || self.queue.len() == 0 {
            self
        } else {
            Model {
                actor: self.queue[0].applied(self.actor),
                queue: self.queue.drop_first(),
                stopping: self.stopping || self.queue[0].stops(self.actor),
                running: true,
            }
        }
    }

    /// A requested stop is observed: the loop exits and drops what is
    /// waiting.
    pub open spec fn exit(self) -> Self {
        if self.running && self.stopping {
            Model { queue: Seq::empty(), running: false, ..self }
        } else {
            self
        }
    }

    /// One iteration of the loop that looks for a stop first: a requested
    /// stop makes it exit, otherwise the oldest envelope is served.
    pub open spec fn dispatch(self) -> Self {
        if self.running && self.stopping {
            self.exit()
        } else {
            self.serve()
        }
    }

    /// One iteration of the loop, with the choice made for it.
    pub open spec fn step(self, choice: Choice) -> Self {
        match choice {
            Choice::Envelope => self.serve(),
            Choice::Stop => self.exit(),
        }
    }

    /// As many iterations as there are choices, one after the other.
    pub open spec fn run(self, choices: Seq<Choice>) -> Self
        decreases choices.len(),
    {
        if choices.len() == 0 {
            self
        } else {
            self.step(choices[0]).run(choices.drop_first())
        }
    }

    /// How many envelopes those iterations execute.
    pub open spec fn served(self, choices: Seq<Choice>) -> nat
        decreases choices.len(),
    {
        if choices.len() == 0 {
            0
        } else {
            let one: nat = if choices[0] is Envelope && self.running && self.queue.len() > 0 {
                1
            } else {
                0
            };
            one + self.step(choices[0]).served(choices.drop_first())
        }
    }

    /// The loop iterates until nothing is left for it to do.
    pub open spec fn drain(self) -> Self
        decreases self.queue.len(),
    {
        if !self.running {
            self
        } else if self.stopping {
            self.dispatch()
        } else if self.queue.len() == 0 {
            self
        } else {
            self.dispatch().drain()
        }
    }

    /// An envelope arrives. Where the mailbox is full the sender waits for
    /// one iteration of the loop, which makes room or ends the loop. A loop
    /// that has exited takes nothing.
    pub open spec fn accept(self, env: Envelope<A>) -> Self {
        let made_room = if self.queue.len() >= MAILBOX_CAPACITY {
            self.dispatch()
        } else {
            self
        };
        made_room.extend(seq![env])
    }

    /// Whether an arriving envelope finds its way into the mailbox.
    pub open spec fn accepts(self) -> bool {
        if self.queue.len() >= MAILBOX_CAPACITY {
            self.dispatch().running
        } else {
            self.running
        }
    }

    /// Envelopes arrive one after the other.
    pub open spec fn accept_all(self, envs: Seq<Envelope<A>>) -> Self
        decreases envs.len(),
    {
        if envs.len() == 0 {
            self
        } else {
            self.accept(envs[0]).accept_all(envs.drop_first())
        }
    }

    /// A request: whatever waits is worked off first, then `msg` is handled,
    /// and a stop that its handler asked for is acted upon.
    pub open spec fn ask<M: Message>(self, msg: M) -> Self where A: Handler<M> {
        let ready = self.drain();
        if ready.running {
            Model {
                actor: ready.actor.handled(msg),
                stopping: ready.actor.stops(msg),
                ..ready
            }.drain()
        } else {
            ready
        }
    }

    /// The state in which the actor handles a request, if the loop lives
    /// long enough to come to it.
    pub open spec fn answering(self) -> Option<A> {
        let ready = self.drain();
        if ready.running {
            Some(ready.actor)
        } else {
            None
        }
    }
}

/// What a loop does next where it has the choice.
pub enum Choice {
    /// It takes the next envelope.
    Envelope,
    /// It observes the stop request.
    Stop,
}

/// Draining keeps the invariant, and a loop that still runs after it has
/// nothing waiting and no stop requested.
pub proof fn lemma_drain_settles<A: Actor>(m: Model<A>)
    requires
        m.wf(),
    ensures
        m.drain().wf(),
        m.drain().running ==> !m.drain().stopping && m.drain().queue.len() == 0,
    decreases m.queue.len(),
{
    if m.running && !m.stopping && m.queue.len() > 0 {
        lemma_drain_settles(m.dispatch());
    }
}

/// The state in which executing `envs`, one after the other from the first,
/// leaves an actor in state `act`.
pub open spec fn replay<A: Actor>(act: A, envs: Seq<Envelope<A>>) -> A
    decreases envs.len(),
{
    if envs.len() == 0 {
        act
    } else {
        replay(envs[0].applied(act), envs.drop_first())
    }
}

/// Whether one of `envs`, executed in order on an actor in state `act`, has
/// a handler that requests a stop.
pub open spec fn halts<A: Actor>(act: A, envs: Seq<Envelope<A>>) -> bool
    decreases envs.len(),
{
    if envs.len() == 0 {
        false
    } else if envs[0].stops(act) {
        true
    } else {
        halts(envs[0].applied(act), envs.drop_first())
    }
}

/// How many of `envs` a loop executes on an actor in state `act`: all of
/// them, or those up to and with the first that requests a stop.
pub open spec fn reach<A: Actor>(act: A, envs: Seq<Envelope<A>>) -> nat
    decreases envs.len(),
{
    if envs.len() == 0 {
        0
    } else if envs[0].stops(act) {
        1
    } else {
        1 + reach(envs[0].applied(act), envs.drop_first())
    }
}

/// Whether `zs` interleaves `xs` and `ys`: it holds the envelopes of both,
/// each once, those of `xs` in their order and those of `ys` in theirs.
pub open spec fn interleaves<A: Actor>(
    zs: Seq<Envelope<A>>,
    xs: Seq<Envelope<A>>,
    ys: Seq<Envelope<A>>,
) -> bool
    decreases zs.len(),
{
    if zs.len() == 0 {
        xs.len() == 0 && ys.len() == 0
    } else {
        ||| xs.len() > 0 && zs[0] == xs[0] && interleaves(zs.drop_first(), xs.drop_first(), ys)
        ||| ys.len() > 0 && zs[0] == ys[0] && interleaves(zs.drop_first(), xs, ys.drop_first())
    }
}

/// `reach` never counts more envelopes than there are, and counts them all
/// where no handler requests a stop.
pub proof fn lemma_reach_bounds<A: Actor>(act: A, envs: Seq<Envelope<A>>)
    ensures
        reach(act, envs) <= envs.len(),
        !halts(act, envs) ==> reach(act, envs) == envs.len(),
        halts(act, envs) ==> reach(act, envs) >= 1,
    decreases envs.len(),
{
    if envs.len() > 0 && !envs[0].stops(act) {
        lemma_reach_bounds(envs[0].applied(act), envs.drop_first());
    }
}

/// Draining executes the waiting envelopes in the order in which they wait,
/// each once, up to and with the first whose handler requests a stop. Where
/// none does the loop goes on running; where one does the loop exits and the
/// envelopes behind it are dropped unexecuted.
pub proof fn lemma_drain_replays<A: Actor>(m: Model<A>)
    requires
        m.running,
        !m.stopping,
    ensures
        m.drain() == (Model {
            actor: replay(m.actor, m.queue.take(reach(m.actor, m.queue) as int)),
            queue: Seq::empty(),
            stopping: halts(m.actor, m.queue),
            running: !halts(m.actor, m.queue),
        }),
    decreases m.queue.len(),
{
    let k = reach(m.actor, m.queue) as int;
    lemma_reach_bounds(m.actor, m.queue);
    if m.queue.len() == 0 {
        assert(m.queue =~= Seq::empty());
    } else {
        let next = m.dispatch();
        let rest = m.queue.drop_first();
        assert(m.queue.take(k).drop_first() =~= rest.take(k - 1));
        if m.queue[0].stops(m.actor) {
            assert(replay(next.actor, rest.take(0)) == next.actor);
            assert(next.drain() == next.dispatch());
        } else {
            lemma_drain_replays(next);
        }
    }
}

/// Whatever a loop chooses where it has the choice, it executes envelopes in
/// the order in which they wait and each at most once: after any number of
/// iterations the actor is in the state that the first few of them leave,
/// and, unless the loop has exited, the others still wait in their order.
pub proof fn lemma_every_choice_keeps_order<A: Actor>(m: Model<A>, choices: Seq<Choice>)
    requires
        m.wf(),
    ensures
        m.run(choices).wf(),
        m.served(choices) <= m.queue.len(),
        m.run(choices).actor == replay(m.actor, m.queue.take(m.served(choices) as int)),
        m.run(choices).running ==> m.run(choices).queue == m.queue.skip(
            m.served(choices) as int,
        ),
    decreases choices.len(),
{
    if choices.len() == 0 {
        assert(m.queue.take(0) =~= Seq::empty());
        assert(m.queue.skip(0) =~= m.queue);
    } else {
        let next = m.step(choices[0]);
        let rest = choices.drop_first();
        lemma_every_choice_keeps_order(next, rest);
        let k = next.served(rest) as int;
        if choices[0] is Envelope && m.running && m.queue.len() > 0 {
            assert(m.queue.take(k + 1).drop_first() =~= next.queue.take(k));
            assert(next.queue.skip(k) =~= m.queue.skip(k + 1));
        } else if !next.running {
            lemma_exited_stays(next, rest);
            assert(m.queue.take(0) =~= Seq::empty());
        }
    }
}

/// No choice makes an exited loop do anything.
pub proof fn lemma_exited_stays<A: Actor>(m: Model<A>, choices: Seq<Choice>)
    requires
        !m.running,
    ensures
        m.run(choices) == m,
        m.served(choices) == 0,
    decreases choices.len(),
{
    if choices.len() > 0 {
        lemma_exited_stays(m.step(choices[0]), choices.drop_first());
    }
}

/// Taking in envelopes one by one and then draining is draining with all of
/// them behind what waited: a full mailbox delays an envelope, it never
/// reorders or loses one.
pub proof fn lemma_accept_all_then_drain<A: Actor>(m: Model<A>, envs: Seq<Envelope<A>>)
    requires
        m.wf(),
    ensures
        m.accept_all(envs).wf(),
        m.accept_all(envs).drain() == m.extend(envs).drain(),
    decreases envs.len(),
{
    if envs.len() > 0 {
        let first = envs[0];
        let rest = envs.drop_first();
        let next = m.accept(first);
        lemma_accept_all_then_drain(next, rest);
        if m.running {
            if m.queue.len() >= MAILBOX_CAPACITY {
                if !m.stopping {
                    assert(next.extend(rest).queue =~= m.extend(envs).queue.drop_first());
                }
            } else {
                assert((m.queue + seq![first]) + rest =~= m.queue + envs);
            }
        }
    }
}

/// First in, first out: envelopes taken in by a running actor are executed
/// behind those that waited before them and in the order in which they
/// came, each once, up to and with the first whose handler requests a stop.
pub proof fn lemma_first_in_first_out<A: Actor>(m: Model<A>, envs: Seq<Envelope<A>>)
    requires
        m.wf(),
        m.running,
        !m.stopping,
    ensures
        ({
            let all = m.queue + envs;
            let done = m.accept_all(envs).drain();
            &&& done.actor == replay(m.actor, all.take(reach(m.actor, all) as int))
            &&& done.running == !halts(m.actor, all)
            &&& done.queue.len() == 0
        }),
{
    lemma_accept_all_then_drain(m, envs);
    lemma_drain_replays(m.extend(envs));
}

/// No update is lost: where no handler requests a stop, every envelope that
/// a running actor took in has been executed exactly once when the loop
/// comes to rest, in the order of arrival.
pub proof fn lemma_no_lost_update<A: Actor>(m: Model<A>, envs: Seq<Envelope<A>>)
    requires
        m.wf(),
        m.running,
        !m.stopping,
        !halts(m.actor, m.queue + envs),
    ensures
        m.accept_all(envs).drain().actor == replay(m.actor, m.queue + envs),
        m.accept_all(envs).drain().running,
{
    let all = m.queue + envs;
    lemma_first_in_first_out(m, envs);
    lemma_reach_bounds(m.actor, all);
    assert(all.take(all.len() as int) =~= all);
}

/// An interleaving holds as many envelopes as its two parts together.
pub proof fn lemma_interleaves_len<A: Actor>(
    zs: Seq<Envelope<A>>,
    xs: Seq<Envelope<A>>,
    ys: Seq<Envelope<A>>,
)
    requires
        interleaves(zs, xs, ys),
    ensures
        zs.len() == xs.len() + ys.len(),
    decreases zs.len(),
{
    if zs.len() > 0 {
        if xs.len() > 0 && zs[0] == xs[0] && interleaves(zs.drop_first(), xs.drop_first(), ys) {
            lemma_interleaves_len(zs.drop_first(), xs.drop_first(), ys);
        } else {
            lemma_interleaves_len(zs.drop_first(), xs, ys.drop_first());
        }
    }
}

/// Serialized execution: when the envelopes of two senders reach a fresh
/// actor interleaved in whatever way, the actor ends in the state of one
/// sequential execution, that of the interleaving itself, in which every
/// envelope of either sender is executed exactly once.
pub proof fn lemma_serialized<A: Actor>(
    act: A,
    xs: Seq<Envelope<A>>,
    ys: Seq<Envelope<A>>,
    zs: Seq<Envelope<A>>,
)
    requires
        interleaves(zs, xs, ys),
        !halts(act, zs),
    ensures
        Model::start(act).accept_all(zs).drain().actor == replay(act, zs),
        zs.len() == xs.len() + ys.len(),
{
    let m = Model::start(act);
    lemma_no_lost_update(m, zs);
    lemma_interleaves_len(zs, xs, ys);
}

/// Draining what waits with `envs` behind it is draining what waits and
/// then, where the loop still runs, draining `envs`.
pub proof fn lemma_drain_append<A: Actor>(m: Model<A>, envs: Seq<Envelope<A>>)
    requires
        m.running,
    ensures
        m.extend(envs).drain() == (if m.drain().running {
            m.drain().extend(envs).drain()
        } else {
            m.drain()
        }),
    decreases m.queue.len(),
{
    if !m.stopping {
        if m.queue.len() == 0 {
            assert(m.extend(envs).drain() == m.extend(envs).drain().drain()) by {
                lemma_drain_idempotent(m.extend(envs));
            }
        } else {
            assert(m.extend(envs).queue.drop_first() =~= m.queue.drop_first() + envs);
            lemma_drain_append(m.dispatch(), envs);
        }
    }
}

/// Draining a second time changes nothing.
pub proof fn lemma_drain_idempotent<A: Actor>(m: Model<A>)
    ensures
        m.drain().drain() == m.drain(),
    decreases m.queue.len(),
{
    if m.running && !m.stopping && m.queue.len() > 0 {
        lemma_drain_idempotent(m.dispatch());
    }
}

/// A request is handled as its envelope is: asking is sending the envelope
/// that carries the message and letting the loop come to rest. The message
/// is handled behind everything that was sent before it.
pub proof fn lemma_ask_is_send<A: Actor + Handler<M>, M: Message>(
    m: Model<A>,
    env: Envelope<A>,
    msg: M,
    tx: Option<oneshot::Sender<M::Response>>,
)
    requires
        m.wf(),
        env.carries(Some(msg), tx),
    ensures
        m.ask(msg) == m.accept(env).drain(),
{
    let envs = seq![env];
    lemma_drain_settles(m);
    assert(m.accept_all(envs) == m.accept(env)) by {
        assert(m.accept(envs[0]).accept_all(envs.drop_first()) == m.accept(env));
    }
    lemma_accept_all_then_drain(m, envs);
    if m.running {
        lemma_drain_append(m, envs);
        let ready = m.drain();
        if ready.running {
            assert(ready.queue =~= Seq::empty());
            assert(ready.extend(envs).queue.drop_first() =~= Seq::empty());
        }
    }
}

/// Round trip: a request that follows a run of envelopes is handled in the
/// state that exactly those envelopes, and the ones that waited before
/// them, leave behind.
pub proof fn lemma_round_trip<A: Actor + Handler<M>, M: Message>(
    m: Model<A>,
    envs: Seq<Envelope<A>>,
    msg: M,
)
    requires
        m.wf(),
        m.running,
        !m.stopping,
        !halts(m.actor, m.queue + envs),
    ensures
        m.accept_all(envs).answering() == Some(replay(m.actor, m.queue + envs)),
        m.accept_all(envs).ask(msg).actor == replay(m.actor, m.queue + envs).handled(msg),
{
    lemma_no_lost_update(m, envs);
    lemma_accept_all_then_drain(m, envs);
    lemma_drain_settles(m.accept_all(envs));
}

/// A loop that has exited stays so: it takes in nothing, executes nothing
/// and answers nothing, and a further stop request changes nothing.
pub proof fn lemma_exit_is_final<A: Actor + Handler<M>, M: Message>(
    m: Model<A>,
    env: Envelope<A>,
    msg: M,
)
    requires
        m.wf(),
        !m.running,
    ensures
        m.stop() == m,
        m.dispatch() == m,
        m.drain() == m,
        !m.accepts(),
        m.accept(env) == m,
        m.ask(msg) == m,
        m.answering() is None,
{
}

/// A stop request ends the loop at its next iteration, whatever waits:
/// nothing more is executed, and no answer is given afterwards. Asking for
/// a stop twice is asking once.
pub proof fn lemma_stop_exits<A: Actor>(m: Model<A>)
    requires
        m.wf(),
        m.running,
    ensures
        m.stop().stop() == m.stop(),
        !m.stop().dispatch().running,
        m.stop().dispatch().actor == m.actor,
        m.stop().drain() == m.stop().dispatch(),
        m.stop().answering() is None,
{
}

} // verus!
