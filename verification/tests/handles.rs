use tactix::counter::{Counter, CounterHandle, CounterMessage};
use tactix::my_actor::{ActorMessage, MyActor, MyActorHandle};
use tactix::{
    Actor, Addr, AddrSender, Channel, Context, Dispatcher, EnvelopeSender, Handler, Message,
    Recipient, Sender, Start,
};

fn is_send<T: Send>() {}

fn is_sync<T: Sync>() {}

#[test]
fn handles_may_cross_threads() {
    is_send::<Addr<Counter>>();
    is_sync::<Addr<Counter>>();
    is_send::<AddrSender<Counter>>();
    is_sync::<AddrSender<Counter>>();
    is_send::<Recipient<CounterMessage>>();
    is_sync::<Recipient<CounterMessage>>();
    is_send::<Dispatcher<Counter>>();
}

#[test]
fn clones_of_an_address_share_one_actor() {
    let addr = Counter::new().start();
    let other = addr.clone();
    let third = other.clone();
    addr.do_send(CounterMessage::Increment);
    other.do_send(CounterMessage::Increment);
    third.do_send(CounterMessage::Increment);
    assert_eq!(addr.send(CounterMessage::GetCount), Ok(Some(3)));
    assert_eq!(other.send(CounterMessage::GetCount), Ok(Some(3)));
    assert_eq!(third.send(CounterMessage::GetCount), Ok(Some(3)));
}

#[test]
fn two_actors_do_not_share_state() {
    let one = Counter::new().start();
    let two = Counter::new().start();
    one.do_send(CounterMessage::Increment);
    one.do_send(CounterMessage::Increment);
    two.do_send(CounterMessage::Increment);
    assert_eq!(one.send(CounterMessage::GetCount), Ok(Some(2)));
    assert_eq!(two.send(CounterMessage::GetCount), Ok(Some(1)));
}

#[test]
fn an_address_is_built_from_a_channel_or_a_sender() {
    let channel = Channel::open(Dispatcher::start(Counter::new()));
    let sender = AddrSender::new(channel.clone());
    let by_channel = Addr::new(channel);
    let by_sender = Addr::from(sender.clone());
    let by_tx = Addr::new(sender.get_tx());
    by_channel.do_send(CounterMessage::Increment);
    by_sender.do_send(CounterMessage::Increment);
    by_tx.do_send(CounterMessage::Increment);
    sender.do_send(CounterMessage::Increment);
    assert_eq!(sender.send(CounterMessage::GetCount), Ok(Some(4)));
    assert_eq!(by_tx.send(CounterMessage::GetCount), Ok(Some(4)));
}

#[test]
fn a_recipient_forwards_to_the_sender_it_was_given() {
    let channel = Channel::open(Dispatcher::start(Counter::new()));
    let recipient: Recipient<CounterMessage> =
        Recipient::new(Box::new(AddrSender::new(channel.clone())));
    let nested: Recipient<CounterMessage> =
        Recipient::new(Box::new(Recipient::new(Box::new(Addr::new(channel.clone())))));
    recipient.do_send(CounterMessage::Increment);
    nested.do_send(CounterMessage::Increment);
    assert_eq!(recipient.send(CounterMessage::GetCount), Ok(Some(2)));
    assert_eq!(nested.send(CounterMessage::GetCount), Ok(Some(2)));
}

struct Ping;

impl Message for Ping {
    type Response = &'static str;
}

struct Pong;

impl Message for Pong {
    type Response = u8;
}

struct Table {
    hits: u8,
}

impl Actor for Table {}

impl Handler<Ping> for Table {
    fn handle(&mut self, _msg: Ping, _ctx: &mut Context<Self>) -> &'static str {
        self.hits += 1;
        "ping"
    }
}

impl Handler<Pong> for Table {
    fn handle(&mut self, _msg: Pong, _ctx: &mut Context<Self>) -> u8 {
        self.hits += 1;
        self.hits
    }
}

struct Wall;

impl Actor for Wall {}

impl Handler<Ping> for Wall {
    fn handle(&mut self, _msg: Ping, _ctx: &mut Context<Self>) -> &'static str {
        "wall"
    }
}

fn serve(to: &Recipient<Ping>) -> Result<&'static str, String> {
    to.send(Ping)
}

#[test]
fn a_recipient_hides_the_actor_and_keeps_the_message() {
    let table = Table { hits: 0 }.start();
    let wall = Wall.start();
    let pings: Vec<Recipient<Ping>> = vec![table.clone().recipient(), wall.recipient()];
    let pongs: Recipient<Pong> = table.clone().into();
    assert_eq!(serve(&pings[0]), Ok("ping"));
    assert_eq!(serve(&pings[1]), Ok("wall"));
    assert_eq!(pongs.send(Pong), Ok(2));
    assert_eq!(table.send(Pong), Ok(3));
}

#[test]
fn a_counter_counts_up_and_down_and_reports() {
    let mut counter = Counter::new();
    assert_eq!(counter.count, 0);
    assert_eq!(counter.handle_message(CounterMessage::Increment), None);
    assert_eq!(counter.handle_message(CounterMessage::Increment), None);
    assert_eq!(counter.handle_message(CounterMessage::GetCount), Some(2));
    assert_eq!(counter.handle_message(CounterMessage::Decrement), None);
    assert_eq!(counter.handle_message(CounterMessage::GetCount), Some(1));
    assert_eq!(counter.count, 1);
}

#[test]
fn a_counter_wraps_around_at_both_ends() {
    let mut counter = Counter::new();
    assert_eq!(counter.handle_message(CounterMessage::Decrement), None);
    assert_eq!(counter.handle_message(CounterMessage::GetCount), Some(u32::MAX));
    assert_eq!(counter.handle_message(CounterMessage::Increment), None);
    assert_eq!(counter.handle_message(CounterMessage::GetCount), Some(0));
}

#[test]
fn a_counter_handles_its_messages_as_an_actor() {
    let mut counter = Counter::new();
    let mut ctx = Context::new();
    assert_eq!(counter.handle(CounterMessage::Increment, &mut ctx), None);
    assert_eq!(counter.handle(CounterMessage::GetCount, &mut ctx), Some(1));
    assert!(!ctx.stopping());
}

#[test]
fn a_counter_handle_counts() {
    let handle = CounterHandle::new();
    let other = handle.clone();
    handle.do_send(CounterMessage::Increment);
    handle.do_send(CounterMessage::Increment);
    other.do_send(CounterMessage::Increment);
    handle.do_send(CounterMessage::Increment);
    other.do_send(CounterMessage::Decrement);
    assert_eq!(handle.send(CounterMessage::GetCount), Ok(3));
    assert_eq!(other.send(CounterMessage::GetCount), Ok(3));
    assert_eq!(CounterHandle::default().send(CounterMessage::GetCount), Ok(0));
}

#[test]
fn a_counter_answers_only_when_asked_for_the_count() {
    let handle = CounterHandle::new();
    assert_eq!(
        handle.send(CounterMessage::Increment),
        Err("Error receiving response".to_string())
    );
    assert_eq!(
        handle.send(CounterMessage::Decrement),
        Err("Error receiving response".to_string())
    );
    assert_eq!(handle.send(CounterMessage::Increment), Err(tactix::RESPONSE_LOST.to_string()));
    assert_eq!(handle.send(CounterMessage::GetCount), Ok(1));
}

#[test]
fn a_greeter_greets_by_name() {
    let mut greeter = MyActor::new();
    let greet = ActorMessage::Greet { name: "World".to_string() };
    assert_eq!(greeter.handle_message(greet), "Hello World!");
    let nobody = ActorMessage::Greet { name: String::new() };
    assert_eq!(greeter.handle_message(nobody), "Hello !");
    let mut ctx = Context::new();
    let again = ActorMessage::Greet { name: "Zoë".to_string() };
    assert_eq!(greeter.handle(again, &mut ctx), "Hello Zoë!");
}

#[test]
fn a_greeter_handle_greets() {
    let handle = MyActorHandle::new();
    assert_eq!(handle.greet("Alice"), Ok("Hello Alice!".to_string()));
    assert_eq!(handle.clone().greet("Bob"), Ok("Hello Bob!".to_string()));
    assert_eq!(MyActorHandle::default().greet(""), Ok("Hello !".to_string()));
}

#[test]
fn a_channel_opened_on_an_exited_loop_takes_nothing() {
    let mut dispatcher = Dispatcher::start(Counter::new());
    dispatcher.stop();
    assert!(dispatcher.exit());
    let channel = Channel::open(dispatcher);
    let sender = AddrSender::new(channel.clone());
    let env = tactix::ToEnvelope::pack(&sender, Some(CounterMessage::Increment), None);
    let back = channel.send(env);
    assert!(back.is_err());
    let mut fresh = Dispatcher::start(Counter::new());
    assert!(fresh.accept(back.err().unwrap()).is_ok());
    assert_eq!(fresh.ask(CounterMessage::GetCount), Ok(Some(1)));
    assert_eq!(
        channel.request(CounterMessage::GetCount),
        Err("Error receiving response".to_string())
    );
    assert_eq!(
        Addr::new(channel).send(CounterMessage::GetCount),
        Err("Error receiving response".to_string())
    );
}

#[test]
fn a_channel_on_a_running_loop_takes_every_envelope() {
    let channel = Channel::open(Dispatcher::start(Counter::new()));
    let sender = AddrSender::new(channel.clone());
    for _ in 0..250 {
        let env = tactix::ToEnvelope::pack(&sender, Some(CounterMessage::Increment), None);
        assert!(channel.send(env).is_ok());
    }
    assert_eq!(channel.request(CounterMessage::GetCount), Ok(Some(250)));
    assert_eq!(channel.clone().request(CounterMessage::GetCount), Ok(Some(250)));
}

#[test]
fn an_address_turned_into_a_recipient_reaches_the_same_actor() {
    let addr = Counter::new().start();
    let recipient: Recipient<CounterMessage> = addr.clone().into();
    recipient.do_send(CounterMessage::Increment);
    addr.do_send(CounterMessage::Increment);
    assert_eq!(recipient.send(CounterMessage::GetCount), Ok(Some(2)));
    assert_eq!(addr.send(CounterMessage::GetCount), Ok(Some(2)));
}
