use std::sync::atomic::{AtomicUsize, Ordering};
use std::sync::Arc;

use tactix::{
    response_or_error, Actor, Context, Dispatcher, Envelope, EnvelopeInner, Handler, Mailbox,
    Message, Sender, Start, Turn, MAILBOX_CAPACITY, RESPONSE_LOST,
};

/// Keeps what it was told, in the order in which it was told.
struct Recorder {
    seen: Vec<u32>,
    started: Arc<AtomicUsize>,
    stopped: Arc<AtomicUsize>,
}

impl Recorder {
    fn new() -> Self {
        Recorder {
            seen: Vec::new(),
            started: Arc::new(AtomicUsize::new(0)),
            stopped: Arc::new(AtomicUsize::new(0)),
        }
    }
}

impl Actor for Recorder {
    fn started(&self) {
        self.started.fetch_add(1, Ordering::SeqCst);
    }

    fn stopped(&self) {
        self.stopped.fetch_add(1, Ordering::SeqCst);
    }
}

struct Note(u32);

impl Message for Note {
    type Response = ();
}

impl Handler<Note> for Recorder {
    fn handle(&mut self, msg: Note, _ctx: &mut Context<Self>) {
        self.seen.push(msg.0);
    }
}

struct Seen;

impl Message for Seen {
    type Response = Vec<u32>;
}

impl Handler<Seen> for Recorder {
    fn handle(&mut self, _msg: Seen, _ctx: &mut Context<Self>) -> Vec<u32> {
        self.seen.clone()
    }
}

struct Halt;

impl Message for Halt {
    type Response = u32;
}

impl Handler<Halt> for Recorder {
    fn handle(&mut self, _msg: Halt, ctx: &mut Context<Self>) -> u32 {
        ctx.stop();
        ctx.stop();
        7
    }
}

fn note(n: u32) -> Envelope<Recorder> {
    Envelope::new(Box::new(EnvelopeInner { msg: Some(Note(n)), tx: None }))
}

fn halt() -> Envelope<Recorder> {
    Envelope::new(Box::new(EnvelopeInner { msg: Some(Halt), tx: None }))
}

#[test]
fn a_fresh_dispatcher_runs_with_nothing_waiting() {
    let d = Dispatcher::start(Recorder::new());
    assert!(d.is_running());
    assert!(!d.is_stopping());
    assert_eq!(d.waiting(), 0);
    assert!(d.actor().seen.is_empty());
}

#[test]
fn started_runs_once_before_the_first_message() {
    let recorder = Recorder::new();
    let started = recorder.started.clone();
    let stopped = recorder.stopped.clone();
    assert_eq!(started.load(Ordering::SeqCst), 0);
    let mut d = Dispatcher::start(recorder);
    assert_eq!(started.load(Ordering::SeqCst), 1);
    assert!(d.accept(note(1)).is_ok());
    d.drain();
    assert_eq!(started.load(Ordering::SeqCst), 1);
    assert_eq!(stopped.load(Ordering::SeqCst), 0);
}

#[test]
fn stopped_runs_once_when_the_loop_exits() {
    let recorder = Recorder::new();
    let stopped = recorder.stopped.clone();
    let mut d = Dispatcher::start(recorder);
    d.stop();
    assert!(d.is_stopping());
    assert!(d.is_running());
    assert_eq!(stopped.load(Ordering::SeqCst), 0);
    assert_eq!(d.dispatch(), Turn::Exited);
    assert!(!d.is_running());
    assert_eq!(stopped.load(Ordering::SeqCst), 1);
    assert_eq!(d.dispatch(), Turn::Idle);
    d.stop();
    d.drain();
    assert_eq!(d.dispatch(), Turn::Idle);
    assert_eq!(stopped.load(Ordering::SeqCst), 1);
}

#[test]
fn one_turn_executes_one_envelope() {
    let mut d = Dispatcher::start(Recorder::new());
    assert_eq!(d.dispatch(), Turn::Idle);
    assert!(d.accept(note(1)).is_ok());
    assert!(d.accept(note(2)).is_ok());
    assert_eq!(d.waiting(), 2);
    assert!(d.actor().seen.is_empty());
    assert_eq!(d.dispatch(), Turn::Executed);
    assert_eq!(d.waiting(), 1);
    assert_eq!(d.actor().seen, vec![1]);
    assert_eq!(d.dispatch(), Turn::Executed);
    assert_eq!(d.actor().seen, vec![1, 2]);
    assert_eq!(d.dispatch(), Turn::Idle);
    assert_eq!(d.waiting(), 0);
    assert!(d.is_running());
}

#[test]
fn envelopes_are_executed_in_the_order_of_arrival() {
    let mut d = Dispatcher::start(Recorder::new());
    let mut expected = Vec::new();
    for n in 0..50u32 {
        assert!(d.accept(note(n * 3 % 17)).is_ok());
        expected.push(n * 3 % 17);
    }
    assert_eq!(d.waiting(), 50);
    d.drain();
    assert_eq!(d.waiting(), 0);
    assert_eq!(d.actor().seen, expected);
    assert_eq!(d.ask(Seen), Ok(expected));
}

#[test]
fn a_full_mailbox_makes_room_without_losing_or_reordering() {
    let mut d = Dispatcher::start(Recorder::new());
    for n in 0..100u32 {
        assert!(d.accept(note(n)).is_ok());
    }
    assert_eq!(d.waiting(), MAILBOX_CAPACITY);
    assert!(d.actor().seen.is_empty());
    assert!(d.accept(note(100)).is_ok());
    assert_eq!(d.waiting(), MAILBOX_CAPACITY);
    assert_eq!(d.actor().seen, vec![0]);
    for n in 101..250u32 {
        assert!(d.accept(note(n)).is_ok());
    }
    assert_eq!(d.waiting(), MAILBOX_CAPACITY);
    d.drain();
    let expected: Vec<u32> = (0..250).collect();
    assert_eq!(d.actor().seen, expected);
}

#[test]
fn a_stop_wins_over_what_waits() {
    let mut d = Dispatcher::start(Recorder::new());
    assert!(d.accept(note(1)).is_ok());
    assert!(d.accept(halt()).is_ok());
    assert!(d.accept(note(2)).is_ok());
    assert!(d.accept(note(3)).is_ok());
    d.drain();
    assert!(!d.is_running());
    assert!(d.is_stopping());
    assert_eq!(d.waiting(), 0);
    assert_eq!(d.actor().seen, vec![1]);
}

#[test]
fn a_handler_in_flight_is_not_cut_short() {
    let mut d = Dispatcher::start(Recorder::new());
    assert!(d.accept(halt()).is_ok());
    assert_eq!(d.dispatch(), Turn::Executed);
    assert!(d.is_running());
    assert!(d.is_stopping());
    assert!(d.accept(note(9)).is_ok());
    assert_eq!(d.dispatch(), Turn::Exited);
    assert!(d.actor().seen.is_empty());
    assert_eq!(d.waiting(), 0);
}

#[test]
fn the_request_that_stops_is_still_answered() {
    let mut d = Dispatcher::start(Recorder::new());
    assert_eq!(d.ask(Halt), Ok(7));
    assert!(!d.is_running());
    assert_eq!(d.ask(Halt), Err("Error receiving response".to_string()));
}

#[test]
fn an_exited_loop_takes_nothing_and_answers_nothing() {
    let mut d = Dispatcher::start(Recorder::new());
    assert!(d.accept(note(1)).is_ok());
    d.stop();
    d.drain();
    assert!(!d.is_running());
    assert!(d.actor().seen.is_empty());
    assert!(d.accept(note(2)).is_err());
    assert_eq!(d.waiting(), 0);
    assert_eq!(d.ask(Seen), Err(RESPONSE_LOST.to_string()));
    assert_eq!(d.dispatch(), Turn::Idle);
    assert!(d.actor().seen.is_empty());
}

#[test]
fn an_envelope_that_is_not_taken_comes_back_unexecuted() {
    let mut d = Dispatcher::start(Recorder::new());
    d.stop();
    d.dispatch();
    let mut back = d.accept(note(5)).err().unwrap();
    let mut other = Dispatcher::start(Recorder::new());
    assert!(other.accept(back).is_ok());
    other.drain();
    assert_eq!(other.actor().seen, vec![5]);
    back = note(6);
    assert!(other.accept(back).is_ok());
    assert_eq!(other.ask(Seen), Ok(vec![5, 6]));
}

#[test]
fn a_request_waits_for_what_was_sent_before_it() {
    let mut d = Dispatcher::start(Recorder::new());
    assert!(d.accept(note(4)).is_ok());
    assert!(d.accept(note(2)).is_ok());
    assert_eq!(d.ask(Seen), Ok(vec![4, 2]));
    assert_eq!(d.waiting(), 0);
    assert!(d.is_running());
}

#[test]
fn a_request_behind_a_stop_is_lost() {
    let mut d = Dispatcher::start(Recorder::new());
    assert!(d.accept(note(4)).is_ok());
    assert!(d.accept(halt()).is_ok());
    assert_eq!(d.ask(Seen), Err("Error receiving response".to_string()));
    assert_eq!(d.actor().seen, vec![4]);
}

#[test]
fn a_mailbox_holds_a_hundred_envelopes_first_in_first_out() {
    assert_eq!(MAILBOX_CAPACITY, 100);
    let mut mailbox: Mailbox<Recorder> = Mailbox::new();
    assert!(mailbox.is_empty());
    assert!(!mailbox.is_full());
    assert!(mailbox.dequeue().is_none());
    for n in 0..100u32 {
        assert!(!mailbox.is_full());
        assert!(mailbox.enqueue(note(n)).is_ok());
        assert_eq!(mailbox.len(), n as usize + 1);
    }
    assert!(mailbox.is_full());
    assert!(mailbox.enqueue(note(100)).is_err());
    assert_eq!(mailbox.len(), 100);

    let mut recorder = Recorder::new();
    let mut ctx = Context::new();
    let mut first = mailbox.dequeue().unwrap();
    tactix::EnvelopeApi::handle(&mut first, &mut recorder, &mut ctx);
    let mut second = mailbox.dequeue().unwrap();
    tactix::EnvelopeApi::handle(&mut second, &mut recorder, &mut ctx);
    assert_eq!(recorder.seen, vec![0, 1]);
    assert_eq!(mailbox.len(), 98);
    assert!(mailbox.enqueue(note(100)).is_ok());
    mailbox.clear();
    assert!(mailbox.is_empty());
    assert!(mailbox.dequeue().is_none());
}

#[test]
fn a_lost_response_is_an_error_and_an_answer_is_itself() {
    assert_eq!(RESPONSE_LOST, "Error receiving response");
    assert_eq!(response_or_error(Some(5u8)), Ok(5u8));
    assert_eq!(response_or_error::<u8>(None), Err("Error receiving response".to_string()));
}

#[test]
fn a_context_remembers_a_stop() {
    let mut ctx: Context<Recorder> = Context::new();
    assert!(!ctx.stopping());
    ctx.stop();
    assert!(ctx.stopping());
    ctx.stop();
    assert!(ctx.stopping());
}

#[test]
fn a_stop_asked_before_the_run_is_not_carried_over() {
    let mut ctx: Context<Recorder> = Context::new();
    ctx.stop();
    let addr = ctx.run(Recorder::new());
    addr.do_send(Note(1));
    assert_eq!(addr.send(Seen), Ok(vec![1]));
}

#[test]
fn after_the_loop_has_exited_send_is_an_error() {
    let recorder = Recorder::new();
    let stopped = recorder.stopped.clone();
    let addr = recorder.start();
    addr.do_send(Note(1));
    assert_eq!(addr.send(Halt), Ok(7));
    assert_eq!(stopped.load(Ordering::SeqCst), 1);
    assert_eq!(addr.send(Seen), Err("Error receiving response".to_string()));
    addr.do_send(Note(2));
    assert_eq!(addr.clone().send(Seen), Err("Error receiving response".to_string()));
    assert_eq!(addr.send(Halt), Err("Error receiving response".to_string()));
    assert_eq!(stopped.load(Ordering::SeqCst), 1);
}

#[test]
fn more_messages_than_the_mailbox_holds_all_arrive_in_order() {
    let addr = Recorder::new().start();
    let other = addr.clone();
    let mut expected = Vec::new();
    for n in 0..321u32 {
        if n % 2 == 0 {
            addr.do_send(Note(n));
        } else {
            other.do_send(Note(n));
        }
        expected.push(n);
    }
    assert_eq!(addr.send(Seen), Ok(expected));
}

#[test]
fn a_loop_that_is_driven_may_serve_while_a_stop_is_pending() {
    let mut d = Dispatcher::start(Recorder::new());
    assert!(d.accept(halt()).is_ok());
    assert!(d.accept(note(1)).is_ok());
    assert!(d.accept(note(2)).is_ok());
    assert!(!d.exit());
    assert!(d.serve());
    assert!(d.is_stopping());
    assert!(d.serve());
    assert_eq!(d.actor().seen, vec![1]);
    assert_eq!(d.waiting(), 1);
    assert!(d.exit());
    assert!(!d.is_running());
    assert_eq!(d.waiting(), 0);
    assert!(!d.serve());
    assert!(!d.exit());
    assert_eq!(d.actor().seen, vec![1]);
}

#[test]
fn serving_takes_the_envelopes_in_their_order() {
    let mut d = Dispatcher::start(Recorder::new());
    assert!(!d.serve());
    for n in 0..10u32 {
        assert!(d.accept(note(n)).is_ok());
    }
    for n in 0..10usize {
        assert_eq!(d.waiting(), 10 - n);
        assert!(d.serve());
    }
    assert!(!d.serve());
    assert_eq!(d.actor().seen, (0..10).collect::<Vec<u32>>());
}

#[test]
fn stopped_runs_once_however_the_loop_is_left() {
    let recorder = Recorder::new();
    let stopped = recorder.stopped.clone();
    let mut d = Dispatcher::start(recorder);
    assert!(!d.exit());
    assert_eq!(stopped.load(Ordering::SeqCst), 0);
    d.stop();
    assert!(d.exit());
    assert!(!d.exit());
    assert_eq!(d.dispatch(), Turn::Idle);
    assert_eq!(stopped.load(Ordering::SeqCst), 1);
}
