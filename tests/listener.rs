use std::collections::BTreeMap;
use std::collections::BTreeSet;

use bottle::listener::ExpirationListener;
use bottle::listener::ListenerAction;
use bottle::listener::ListenerEvent;
use bottle::listener::ListenerPhase;
use bottle::listener::POLL_TIMEOUT_MILLIS;
use bottle::storage::BottleDestination;
use bottle::storage::BottleMessage;
use bottle::storage::RedisStorage;
use bottle::storage::Storage;
use bottle::storage::StoreCommand;
use bottle::storage::StoreError;

/// An in-memory stand-in for the store, the subscription and the channel.
struct World {
    entries: BTreeMap<String, String>,
    sets: BTreeMap<String, BTreeSet<String>>,
    events: Vec<ListenerEvent>,
    notified: Vec<(String, String)>,
    removals: Vec<String>,
    commands: Vec<StoreCommand>,
    shutdown_after_events: bool,
}

impl World {
    fn new() -> World {
        World {
            entries: BTreeMap::new(),
            sets: BTreeMap::new(),
            events: Vec::new(),
            notified: Vec::new(),
            removals: Vec::new(),
            commands: Vec::new(),
            shutdown_after_events: true,
        }
    }

    fn run_batch(&mut self, commands: &[StoreCommand]) {
        for c in commands {
            self.run(c);
        }
    }

    fn run(&mut self, c: &StoreCommand) -> ListenerEvent {
        self.commands.push(c.clone());
        match c {
            StoreCommand::SetWithExpiry { key, value, .. } => {
                self.entries.insert(key.clone(), value.clone());
                ListenerEvent::Done
            }
            StoreCommand::AddToSet { set, member } => {
                self.sets.entry(set.clone()).or_default().insert(member.clone());
                ListenerEvent::Done
            }
            StoreCommand::RemoveFromSet { set, member } => {
                self.removals.push(member.clone());
                let removed = self.sets.entry(set.clone()).or_default().remove(member);
                ListenerEvent::Count(if removed { 1 } else { 0 })
            }
            StoreCommand::RandomSetMember { set } => ListenerEvent::Value(
                self.sets.get(set).and_then(|s| s.iter().next().cloned()),
            ),
            StoreCommand::Get { key } => ListenerEvent::Value(self.entries.get(key).cloned()),
            _ => ListenerEvent::Done,
        }
    }

    /// Drives a new listener until it stops; returns what it stopped with.
    fn drive(&mut self) -> Result<(), StoreError> {
        let mut listener = ExpirationListener::new();
        let mut event = ListenerEvent::Started;
        let mut pending = self.events.clone();
        pending.reverse();
        for _ in 0..1000 {
            match listener.step(event) {
                ListenerAction::Execute(c) => event = self.run(&c),
                ListenerAction::Receive => {
                    event = pending.pop().unwrap_or(ListenerEvent::TimedOut);
                }
                ListenerAction::Notify { destination, message } => {
                    self.notified.push((destination, message));
                    event = ListenerEvent::Done;
                }
                ListenerAction::CheckShutdown => {
                    event = if pending.is_empty() && self.shutdown_after_events {
                        ListenerEvent::ShutdownRequested
                    } else {
                        ListenerEvent::Done
                    };
                }
                ListenerAction::Stop(r) => {
                    assert!(listener.is_terminated());
                    return r;
                }
            }
        }
        panic!("listener did not stop");
    }
}

fn expired(key: &str) -> ListenerEvent {
    ListenerEvent::Received(format!("trigger:{}", key))
}

#[test]
fn stored_message_is_delivered_to_only_destination() {
    let mut world = World::new();
    let storage = RedisStorage {};
    let batch = storage.store_message(&BottleMessage { msg: String::from("hello") });
    world.run_batch(&batch.commands);
    let dest = storage.store_destination(&BottleDestination { email: String::from("a@example.com") });
    world.run_batch(&dest.commands);
    world.events = vec![expired(&batch.key)];
    assert_eq!(world.drive(), Ok(()));
    assert_eq!(
        world.notified,
        vec![(String::from("a@example.com"), String::from("hello"))]
    );
}

#[test]
fn empty_destination_set_sends_nothing() {
    let mut world = World::new();
    let batch = RedisStorage {}.store_message(&BottleMessage { msg: String::from("hello") });
    world.run_batch(&batch.commands);
    world.events = vec![expired(&batch.key), ListenerEvent::TimedOut];
    assert_eq!(world.drive(), Ok(()));
    assert!(world.notified.is_empty());
}

#[test]
fn evicted_message_sends_nothing() {
    let mut world = World::new();
    let storage = RedisStorage {};
    let batch = storage.store_message(&BottleMessage { msg: String::from("hello") });
    let dest = storage.store_destination(&BottleDestination { email: String::from("a@example.com") });
    world.run_batch(&dest.commands);
    world.events = vec![expired(&batch.key)];
    assert_eq!(world.drive(), Ok(()));
    assert!(world.notified.is_empty());
    assert!(world.commands.contains(&StoreCommand::Get { key: batch.key.clone() }));
}

#[test]
fn loop_survives_failures_and_timeouts() {
    let mut world = World::new();
    let storage = RedisStorage {};
    let first = storage.store_message(&BottleMessage { msg: String::from("first") });
    let dest = storage.store_destination(&BottleDestination { email: String::from("b@example.com") });
    world.run_batch(&first.commands);
    world.run_batch(&dest.commands);
    world.events = vec![
        ListenerEvent::Failed(StoreError { detail: String::from("connection reset") }),
        ListenerEvent::TimedOut,
        ListenerEvent::Received(String::from("unrelated")),
        expired("msg-missing"),
        expired(&first.key),
    ];
    assert_eq!(world.drive(), Ok(()));
    assert_eq!(
        world.notified,
        vec![(String::from("b@example.com"), String::from("first"))]
    );
}

#[test]
fn expired_destination_is_removed_once() {
    let mut world = World::new();
    let storage = RedisStorage {};
    let a = storage.store_destination(&BottleDestination { email: String::from("a@example.com") });
    let b = storage.store_destination(&BottleDestination { email: String::from("b@example.com") });
    world.run_batch(&a.commands);
    world.run_batch(&b.commands);
    world.events = vec![ListenerEvent::Received(a.key.clone())];
    assert_eq!(world.drive(), Ok(()));
    assert_eq!(world.removals, vec![a.key.clone()]);
    let members = &world.sets["destinations"];
    assert_eq!(members.len(), 1);
    assert!(members.contains(&b.key));
}

#[test]
fn setup_configures_subscribes_and_bounds_receive() {
    let mut world = World::new();
    assert_eq!(world.drive(), Ok(()));
    assert_eq!(
        world.commands[..3].to_vec(),
        vec![
            StoreCommand::ConfigSet {
                parameter: String::from("notify-keyspace-events"),
                value: String::from("Exg"),
            },
            StoreCommand::SubscribePattern { pattern: String::from("__keyevent@*__:expired") },
            StoreCommand::SetPollTimeout { millis: 5000 },
        ]
    );
    assert_eq!(POLL_TIMEOUT_MILLIS, 5000);
}

#[test]
fn setup_failure_stops_with_error() {
    let mut listener = ExpirationListener::new();
    assert!(matches!(listener.step(ListenerEvent::Started), ListenerAction::Execute(_)));
    let e = StoreError { detail: String::from("ERR unknown command CONFIG") };
    assert_eq!(listener.step(ListenerEvent::Failed(e.clone())), ListenerAction::Stop(Err(e)));
    assert_eq!(listener.phase(), ListenerPhase::Terminated);
    assert_eq!(listener.step(ListenerEvent::Done), ListenerAction::Stop(Ok(())));
}

#[test]
fn subscribe_failure_stops_with_error() {
    let mut listener = ExpirationListener::new();
    listener.step(ListenerEvent::Started);
    listener.step(ListenerEvent::Done);
    let e = StoreError { detail: String::from("ERR psubscribe") };
    assert_eq!(listener.step(ListenerEvent::Failed(e.clone())), ListenerAction::Stop(Err(e)));
}

#[test]
fn shutdown_notice_ends_loop_after_current_iteration() {
    let mut listener = ExpirationListener::new();
    listener.step(ListenerEvent::Started);
    listener.step(ListenerEvent::Done);
    listener.step(ListenerEvent::Done);
    assert_eq!(listener.step(ListenerEvent::Done), ListenerAction::Receive);
    assert_eq!(listener.phase(), ListenerPhase::Polling);
    assert_eq!(listener.step(ListenerEvent::TimedOut), ListenerAction::CheckShutdown);
    assert_eq!(listener.step(ListenerEvent::Done), ListenerAction::Receive);
    assert_eq!(listener.step(ListenerEvent::TimedOut), ListenerAction::CheckShutdown);
    assert_eq!(listener.step(ListenerEvent::ShutdownRequested), ListenerAction::Stop(Ok(())));
    assert!(listener.is_terminated());
}

#[test]
fn dispatch_outcome_does_not_stop_loop() {
    let mut listener = ExpirationListener::new();
    listener.step(ListenerEvent::Started);
    listener.step(ListenerEvent::Done);
    listener.step(ListenerEvent::Done);
    listener.step(ListenerEvent::Done);
    assert_eq!(
        listener.step(ListenerEvent::Received(String::from("trigger:msg-5"))),
        ListenerAction::Execute(StoreCommand::Get { key: String::from("msg-5") })
    );
    assert_eq!(
        listener.step(ListenerEvent::Value(Some(String::from("hi")))),
        ListenerAction::Execute(StoreCommand::RandomSetMember { set: String::from("destinations") })
    );
    assert_eq!(
        listener.step(ListenerEvent::Value(Some(String::from("dest-1")))),
        ListenerAction::Execute(StoreCommand::Get { key: String::from("dest-1") })
    );
    assert_eq!(
        listener.step(ListenerEvent::Value(Some(String::from("x@example.com")))),
        ListenerAction::Notify {
            destination: String::from("x@example.com"),
            message: String::from("hi"),
        }
    );
    let e = StoreError { detail: String::from("provider down") };
    assert_eq!(listener.step(ListenerEvent::Failed(e)), ListenerAction::CheckShutdown);
    assert_eq!(listener.step(ListenerEvent::Done), ListenerAction::Receive);
}
