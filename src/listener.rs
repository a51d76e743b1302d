//! The expiration listener: the decisions of the loop that turns expired trigger keys
//! into deliveries.
//!
//! The listener is a state machine. Each call of [`ExpirationListener::step`] takes
//! what became of the previous action and returns the next action; whoever drives it
//! performs the actions against the store, the subscription, the notification channel
//! and the shutdown signal, and feeds back the outcome.

use vstd::prelude::*;
use crate::keys::classify;
use crate::keys::classify_expired;
use crate::keys::destination_set;
use crate::keys::destination_set_name;
use crate::keys::destination_key_for;
use crate::keys::lemma_expired_keys_classified;
use crate::keys::message_key_for;
use crate::keys::trigger_key_for;
use crate::keys::ExpiredKey;
use crate::keys::ExpiredKeyView;
use crate::storage::CommandView;
use crate::storage::StoreCommand;
use crate::storage::StoreError;

verus! {

/// How long one receive on the subscription waits for an expiration event, in
/// milliseconds; also the bound on how late a shutdown notice is seen.
pub const POLL_TIMEOUT_MILLIS: u64 = 5000;

/// Where the listener stands.
#[derive(PartialEq, Eq, Structural, Clone, Copy, Debug)]
pub enum ListenerPhase {
    /// Made, not started.
    Idle,
    /// Waiting for the store to enable expiration events.
    Configuring,
    /// Waiting for the pattern subscription.
    Subscribing,
    /// Waiting for the receive timeout to be set.
    SettingTimeout,
    /// Waiting for an expiration event, or for the receive to time out.
    Polling,
    /// A trigger fired: waiting for the message it names.
    FetchingMessage,
    /// Waiting for a random member of the destination set.
    PickingDestination,
    /// Waiting for the address stored under the chosen destination key.
    FetchingAddress,
    /// Waiting for the notification channel to return.
    Dispatching,
    /// Waiting for an expired destination to leave the destination set.
    Removing,
    /// Waiting to learn whether shutdown was asked for.
    CheckingShutdown,
    /// Done; the listener asks for nothing more.
    Terminated,
}

/// What became of the listener's previous action.
#[derive(Debug, PartialEq, Eq, Clone)]
pub enum ListenerEvent {
    /// The listener is to start; the first event fed to a new listener.
    Started,
    /// The action completed with nothing to report; after `CheckShutdown`, no shutdown
    /// notice was pending.
    Done,
    /// The reply of `GET` or `SRANDMEMBER`: `None` when there is no such key, or the set
    /// is empty.
    Value(Option<String>),
    /// The reply of `SREM`: how many members left the set.
    Count(u64),
    /// An expiration event arrived; its payload is the expired key.
    Received(String),
    /// The receive waited its whole timeout and no event came.
    TimedOut,
    /// The store command or the receive failed.
    Failed(StoreError),
    /// A shutdown notice is pending, or its sender is gone.
    ShutdownRequested,
}

/// What the listener asks its driver to do next.
#[derive(Debug, PartialEq, Eq)]
pub enum ListenerAction {
    /// Run a command on the store.
    Execute(StoreCommand),
    /// Wait, at most the poll timeout, for the next expiration event.
    Receive,
    /// Deliver `message` to `destination` through the notification channel.
    Notify { destination: String, message: String },
    /// Look, without waiting, for a shutdown notice.
    CheckShutdown,
    /// The listener has terminated, with an error if its setup failed.
    Stop(Result<(), StoreError>),
}

/// The mathematical form of [`ListenerEvent`].
pub enum EventView {
    Started,
    Done,
    Value(Option<Seq<char>>),
    Count(u64),
    Received(Seq<char>),
    TimedOut,
    Failed(Seq<char>),
    ShutdownRequested,
}

/// The mathematical form of [`ListenerAction`].
pub enum ActionView {
    Execute(CommandView),
    Receive,
    Notify { destination: Seq<char>, message: Seq<char> },
    CheckShutdown,
    Stop(Result<(), Seq<char>>),
}

impl View for ListenerEvent {
    type V = EventView;

    open spec fn view(&self) -> EventView {
        match self {
            ListenerEvent::Started => EventView::Started,
            ListenerEvent::Done => EventView::Done,
            ListenerEvent::Value(v) => EventView::Value(
                match v {
                    Some(s) => Some(s@),
                    None => None,
                },
            ),
            ListenerEvent::Count(n) => EventView::Count(*n),
            ListenerEvent::Received(p) => EventView::Received(p@),
            ListenerEvent::TimedOut => EventView::TimedOut,
            ListenerEvent::Failed(e) => EventView::Failed(e.detail@),
            ListenerEvent::ShutdownRequested => EventView::ShutdownRequested,
        }
    }
}

impl View for ListenerAction {
    type V = ActionView;

    open spec fn view(&self) -> ActionView {
        match self {
            ListenerAction::Execute(c) => ActionView::Execute(c@),
            ListenerAction::Receive => ActionView::Receive,
            ListenerAction::Notify { destination, message } => ActionView::Notify {
                destination: destination@,
                message: message@,
            },
            ListenerAction::CheckShutdown => ActionView::CheckShutdown,
            ListenerAction::Stop(r) => ActionView::Stop(
                match r {
                    Ok(()) => Ok(()),
                    Err(e) => Err(e.detail@),
                },
            ),
        }
    }
}

/// The mathematical form of [`ExpirationListener`]: its phase, and the message being
/// delivered while a destination is chosen.
pub struct ListenerState {
    pub phase: ListenerPhase,
    pub message: Seq<char>,
}

/// `notify-keyspace-events`.
pub open spec fn notify_config_parameter() -> Seq<char> {
    seq![
        'n', 'o', 't', 'i', 'f', 'y', '-', 'k', 'e', 'y', 's', 'p', 'a', 'c', 'e', '-',
        'e', 'v', 'e', 'n', 't', 's',
    ]
}

/// `Exg`: key-event notifications (`E`) of expired keys (`x`) and generic commands (`g`).
pub open spec fn notify_config_value() -> Seq<char> {
    seq!['E', 'x', 'g']
}

/// `__keyevent@*__:expired`: the expired-key events of every database.
pub open spec fn expired_pattern() -> Seq<char> {
    seq![
        '_', '_', 'k', 'e', 'y', 'e', 'v', 'e', 'n', 't', '@', '*', '_', '_', ':', 'e', 'x',
        'p', 'i', 'r', 'e', 'd',
    ]
}

/// The end of an iteration of the loop: the listener looks for a shutdown notice next.
pub open spec fn ended_iteration(message: Seq<char>) -> (ListenerState, ActionView) {
    (ListenerState { phase: ListenerPhase::CheckingShutdown, message }, ActionView::CheckShutdown)
}

/// One transition of the listener: the state it moves to on `event`, and its next action.
///
/// Setup enables expiration events, subscribes, and sets the receive timeout; a failure
/// of any of these ends the listener with that error. Each iteration of the loop then
/// receives one event, acts on it, and checks for shutdown; a failure inside an
/// iteration only ends that iteration.
pub open spec fn next(s: ListenerState, event: EventView) -> (ListenerState, ActionView) {
    let m = s.message;
    match s.phase {
        ListenerPhase::Idle => (
            ListenerState { phase: ListenerPhase::Configuring, message: m },
            ActionView::Execute(
                CommandView::ConfigSet {
                    parameter: notify_config_parameter(),
                    value: notify_config_value(),
                },
            ),
        ),
        ListenerPhase::Configuring => match event {
            EventView::Failed(e) => (
                ListenerState { phase: ListenerPhase::Terminated, message: m },
                ActionView::Stop(Err(e)),
            ),
            _ => (
                ListenerState { phase: ListenerPhase::Subscribing, message: m },
                ActionView::Execute(CommandView::SubscribePattern { pattern: expired_pattern() }),
            ),
        },
        ListenerPhase::Subscribing => match event {
            EventView::Failed(e) => (
                ListenerState { phase: ListenerPhase::Terminated, message: m },
                ActionView::Stop(Err(e)),
            ),
            _ => (
                ListenerState { phase: ListenerPhase::SettingTimeout, message: m },
                ActionView::Execute(CommandView::SetPollTimeout { millis: POLL_TIMEOUT_MILLIS }),
            ),
        },
        ListenerPhase::SettingTimeout => match event {
            EventView::Failed(e) => (
                ListenerState { phase: ListenerPhase::Terminated, message: m },
                ActionView::Stop(Err(e)),
            ),
            _ => (ListenerState { phase: ListenerPhase::Polling, message: m }, ActionView::Receive),
        },
        ListenerPhase::Polling => match event {
            EventView::Received(payload) => match classify(payload) {
                ExpiredKeyView::Trigger { message_key } => (
                    ListenerState { phase: ListenerPhase::FetchingMessage, message: m },
                    ActionView::Execute(CommandView::Get { key: message_key }),
                ),
                ExpiredKeyView::Destination { key } => (
                    ListenerState { phase: ListenerPhase::Removing, message: m },
                    ActionView::Execute(
                        CommandView::RemoveFromSet { set: destination_set(), member: key },
                    ),
                ),
                ExpiredKeyView::Other => ended_iteration(m),
            },
            _ => ended_iteration(m),
        },
        ListenerPhase::FetchingMessage => match event {
            EventView::Value(Some(content)) => (
                ListenerState { phase: ListenerPhase::PickingDestination, message: content },
                ActionView::Execute(CommandView::RandomSetMember { set: destination_set() }),
            ),
            _ => ended_iteration(m),
        },
        ListenerPhase::PickingDestination => match event {
            EventView::Value(Some(member)) => (
                ListenerState { phase: ListenerPhase::FetchingAddress, message: m },
                ActionView::Execute(CommandView::Get { key: member }),
            ),
            _ => ended_iteration(m),
        },
        ListenerPhase::FetchingAddress => match event {
            EventView::Value(Some(address)) => (
                ListenerState { phase: ListenerPhase::Dispatching, message: m },
                ActionView::Notify { destination: address, message: m },
            ),
            _ => ended_iteration(m),
        },
        ListenerPhase::Dispatching => ended_iteration(m),
        ListenerPhase::Removing => ended_iteration(m),
        ListenerPhase::CheckingShutdown => match event {
            EventView::ShutdownRequested => (
                ListenerState { phase: ListenerPhase::Terminated, message: m },
                ActionView::Stop(Ok(())),
            ),
            _ => (ListenerState { phase: ListenerPhase::Polling, message: m }, ActionView::Receive),
        },
        ListenerPhase::Terminated => (
            ListenerState { phase: ListenerPhase::Terminated, message: m },
            ActionView::Stop(Ok(())),
        ),
    }
}

/// The listener of expired keys.
pub struct ExpirationListener {
    phase: ListenerPhase,
    message: String,
}

impl View for ExpirationListener {
    type V = ListenerState;

    closed spec fn view(&self) -> ListenerState {
        ListenerState { phase: self.phase, message: self.message@ }
    }
}

impl ExpirationListener {
    /// A listener that has not started.
    pub fn new() -> (r: ExpirationListener)
        ensures
            r@.phase == ListenerPhase::Idle,
            r@.message == Seq::<char>::empty(),
    {
        ExpirationListener { phase: ListenerPhase::Idle, message: String::new() }
    }

    /// The listener's phase.
    pub fn phase(&self) -> (r: ListenerPhase)
        ensures
            r == self@.phase,
    {
        self.phase
    }

    /// Whether the listener has terminated.
    pub fn is_terminated(&self) -> (r: bool)
        ensures
            r == (self@.phase == ListenerPhase::Terminated),
    {
        self.phase == ListenerPhase::Terminated
    }

    fn end_iteration(&mut self) -> (r: ListenerAction)
        ensures
            (final(self)@, r@) == ended_iteration(old(self)@.message),
    {
        self.phase = ListenerPhase::CheckingShutdown;
        ListenerAction::CheckShutdown
    }

    /// Takes what became of the previous action and returns the next one.
    pub fn step(&mut self, event: ListenerEvent) -> (r: ListenerAction)
        ensures
            (final(self)@, r@) == next(old(self)@, event@),
    {
        match self.phase {
            ListenerPhase::Idle => {
                proof {
                    reveal_strlit("notify-keyspace-events");
                    reveal_strlit("Exg");
                    assert("notify-keyspace-events"@ =~= notify_config_parameter());
                    assert("Exg"@ =~= notify_config_value());
                }
                self.phase = ListenerPhase::Configuring;
                ListenerAction::Execute(
                    StoreCommand::ConfigSet {
                        parameter: String::from_str("notify-keyspace-events"),
                        value: String::from_str("Exg"),
                    },
                )
            },
            ListenerPhase::Configuring => match event {
                ListenerEvent::Failed(e) => {
                    self.phase = ListenerPhase::Terminated;
                    ListenerAction::Stop(Err(e))
                },
                _ => {
                    proof {
                        reveal_strlit("__keyevent@*__:expired");
                        assert("__keyevent@*__:expired"@ =~= expired_pattern());
                    }
                    self.phase = ListenerPhase::Subscribing;
                    ListenerAction::Execute(
                        StoreCommand::SubscribePattern {
                            pattern: String::from_str("__keyevent@*__:expired"),
                        },
                    )
                },
            },
            ListenerPhase::Subscribing => match event {
                ListenerEvent::Failed(e) => {
                    self.phase = ListenerPhase::Terminated;
                    ListenerAction::Stop(Err(e))
                },
                _ => {
                    self.phase = ListenerPhase::SettingTimeout;
                    ListenerAction::Execute(
                        StoreCommand::SetPollTimeout { millis: POLL_TIMEOUT_MILLIS },
                    )
                },
            },
            ListenerPhase::SettingTimeout => match event {
                ListenerEvent::Failed(e) => {
                    self.phase = ListenerPhase::Terminated;
                    ListenerAction::Stop(Err(e))
                },
                _ => {
                    self.phase = ListenerPhase::Polling;
                    ListenerAction::Receive
                },
            },
            ListenerPhase::Polling => match event {
                ListenerEvent::Received(payload) => match classify_expired(payload.as_str()) {
                    ExpiredKey::Trigger { message_key } => {
                        self.phase = ListenerPhase::FetchingMessage;
                        ListenerAction::Execute(StoreCommand::Get { key: message_key })
                    },
                    ExpiredKey::Destination { key } => {
                        self.phase = ListenerPhase::Removing;
                        ListenerAction::Execute(
                            StoreCommand::RemoveFromSet { set: destination_set_name(), member: key },
                        )
                    },
                    ExpiredKey::Other => self.end_iteration(),
                },
                _ => self.end_iteration(),
            },
            ListenerPhase::FetchingMessage => match event {
                ListenerEvent::Value(Some(content)) => {
                    self.phase = ListenerPhase::PickingDestination;
                    self.message = content;
                    ListenerAction::Execute(
                        StoreCommand::RandomSetMember { set: destination_set_name() },
                    )
                },
                _ => self.end_iteration(),
            },
            ListenerPhase::PickingDestination => match event {
                ListenerEvent::Value(Some(member)) => {
                    self.phase = ListenerPhase::FetchingAddress;
                    ListenerAction::Execute(StoreCommand::Get { key: member })
                },
                _ => self.end_iteration(),
            },
            ListenerPhase::FetchingAddress => match event {
                ListenerEvent::Value(Some(address)) => {
                    self.phase = ListenerPhase::Dispatching;
                    ListenerAction::Notify { destination: address, message: self.message.clone() }
                },
                _ => self.end_iteration(),
            },
            ListenerPhase::Dispatching => self.end_iteration(),
            ListenerPhase::Removing => self.end_iteration(),
            ListenerPhase::CheckingShutdown => match event {
                ListenerEvent::ShutdownRequested => {
                    self.phase = ListenerPhase::Terminated;
                    ListenerAction::Stop(Ok(()))
                },
                _ => {
                    self.phase = ListenerPhase::Polling;
                    ListenerAction::Receive
                },
            },
            ListenerPhase::Terminated => ListenerAction::Stop(Ok(())),
        }
    }
}

/// A listener waiting in its loop for the next expiration event.
pub open spec fn polling(message: Seq<char>) -> ListenerState {
    ListenerState { phase: ListenerPhase::Polling, message }
}

/// The phases of the listener's steady loop.
pub open spec fn in_loop(phase: ListenerPhase) -> bool {
    match phase {
        ListenerPhase::Polling | ListenerPhase::FetchingMessage
        | ListenerPhase::PickingDestination | ListenerPhase::FetchingAddress
        | ListenerPhase::Dispatching | ListenerPhase::Removing
        | ListenerPhase::CheckingShutdown => true,
        _ => false,
    }
}

/// At most how many more steps the current iteration of the loop takes before the
/// listener looks for a shutdown notice.
pub open spec fn steps_to_shutdown_check(phase: ListenerPhase) -> nat {
    match phase {
        ListenerPhase::Polling => 5,
        ListenerPhase::FetchingMessage => 4,
        ListenerPhase::PickingDestination => 3,
        ListenerPhase::FetchingAddress => 2,
        ListenerPhase::Dispatching => 1,
        ListenerPhase::Removing => 1,
        _ => 0,
    }
}

/// Setup enables expiration events, subscribes to expired keys and bounds each receive
/// by the poll timeout, then polls; a failure of any of its steps ends the listener at
/// once with that error.
pub proof fn lemma_setup(message: Seq<char>, error: Seq<char>)
    ensures
        ({
            let (s1, a1) = next(ListenerState { phase: ListenerPhase::Idle, message }, EventView::Started);
            let (s2, a2) = next(s1, EventView::Done);
            let (s3, a3) = next(s2, EventView::Done);
            let (s4, a4) = next(s3, EventView::Done);
            &&& a1 == ActionView::Execute(
                CommandView::ConfigSet {
                    parameter: notify_config_parameter(),
                    value: notify_config_value(),
                },
            )
            &&& a2 == ActionView::Execute(CommandView::SubscribePattern { pattern: expired_pattern() })
            &&& a3 == ActionView::Execute(CommandView::SetPollTimeout { millis: POLL_TIMEOUT_MILLIS })
            &&& a4 == ActionView::Receive
            &&& s4 == polling(message)
            &&& next(s1, EventView::Failed(error)).1 == ActionView::Stop(Err(error))
            &&& next(s2, EventView::Failed(error)).1 == ActionView::Stop(Err(error))
            &&& next(s3, EventView::Failed(error)).1 == ActionView::Stop(Err(error))
            &&& next(s1, EventView::Failed(error)).0.phase == ListenerPhase::Terminated
            &&& next(s2, EventView::Failed(error)).0.phase == ListenerPhase::Terminated
            &&& next(s3, EventView::Failed(error)).0.phase == ListenerPhase::Terminated
        }),
{
}

/// When a trigger fires, its message is still in the store and the destination set has
/// a member, the listener fetches the message, draws a destination from the set, reads
/// its address and asks for exactly one notification, of that address with that
/// message; whatever the notification channel reports, the iteration then ends.
pub proof fn lemma_trigger_delivers_once(
    hash: u64,
    previous: Seq<char>,
    content: Seq<char>,
    member: Seq<char>,
    address: Seq<char>,
    dispatched: EventView,
)
    ensures
        ({
            let payload = trigger_key_for(message_key_for(hash));
            let (s1, a1) = next(polling(previous), EventView::Received(payload));
            let (s2, a2) = next(s1, EventView::Value(Some(content)));
            let (s3, a3) = next(s2, EventView::Value(Some(member)));
            let (s4, a4) = next(s3, EventView::Value(Some(address)));
            let (s5, a5) = next(s4, dispatched);
            &&& a1 == ActionView::Execute(CommandView::Get { key: message_key_for(hash) })
            &&& a2 == ActionView::Execute(CommandView::RandomSetMember { set: destination_set() })
            &&& a3 == ActionView::Execute(CommandView::Get { key: member })
            &&& a4 == ActionView::Notify { destination: address, message: content }
            &&& a5 == ActionView::CheckShutdown
            &&& s5.phase == ListenerPhase::CheckingShutdown
        }),
{
    lemma_expired_keys_classified(hash);
}

/// When a trigger fires but its message no longer resolves, or fetching it fails, no
/// notification is asked for, and the loop goes on to its next receive.
pub proof fn lemma_unresolved_message_not_delivered(
    hash: u64,
    previous: Seq<char>,
    reply: EventView,
)
    requires
        !(reply is Value && reply->Value_0 is Some),
    ensures
        ({
            let payload = trigger_key_for(message_key_for(hash));
            let (s1, a1) = next(polling(previous), EventView::Received(payload));
            let (s2, a2) = next(s1, reply);
            let (s3, a3) = next(s2, EventView::Done);
            &&& a1 == ActionView::Execute(CommandView::Get { key: message_key_for(hash) })
            &&& a2 == ActionView::CheckShutdown
            &&& a3 == ActionView::Receive
            &&& s3.phase == ListenerPhase::Polling
        }),
{
    lemma_expired_keys_classified(hash);
}

/// When a trigger fires while the destination set is empty, or drawing from it fails, no
/// notification is asked for, and the loop goes on to its next receive.
pub proof fn lemma_no_destination_not_delivered(
    hash: u64,
    previous: Seq<char>,
    content: Seq<char>,
    reply: EventView,
)
    requires
        !(reply is Value && reply->Value_0 is Some),
    ensures
        ({
            let payload = trigger_key_for(message_key_for(hash));
            let (s1, a1) = next(polling(previous), EventView::Received(payload));
            let (s2, a2) = next(s1, EventView::Value(Some(content)));
            let (s3, a3) = next(s2, reply);
            let (s4, a4) = next(s3, EventView::Done);
            &&& a2 == ActionView::Execute(CommandView::RandomSetMember { set: destination_set() })
            &&& a3 == ActionView::CheckShutdown
            &&& a4 == ActionView::Receive
            &&& s4.phase == ListenerPhase::Polling
        }),
{
    lemma_expired_keys_classified(hash);
}

/// When a destination entry expires, the listener asks once to remove its key from the
/// destination set and, whatever the store answers, ends the iteration; removing one
/// member takes at most one from the size of a finite set.
pub proof fn lemma_expired_destination_removed_once(
    hash: u64,
    previous: Seq<char>,
    reply: EventView,
    members: Set<Seq<char>>,
)
    requires
        members.finite(),
    ensures
        ({
            let key = destination_key_for(hash);
            let (s1, a1) = next(polling(previous), EventView::Received(key));
            let (s2, a2) = next(s1, reply);
            &&& a1 == ActionView::Execute(
                CommandView::RemoveFromSet { set: destination_set(), member: key },
            )
            &&& a2 == ActionView::CheckShutdown
            &&& s2.phase == ListenerPhase::CheckingShutdown
            &&& members.remove(key).len() <= members.len() <= members.remove(key).len() + 1
        }),
{
    lemma_expired_keys_classified(hash);
}

/// Shutdown is seen within one iteration of the loop: every step inside an iteration
/// stays in the loop and comes closer to the shutdown check, none of them waits on the
/// subscription (only the receive that starts an iteration does, for at most the poll
/// timeout), at most one is a notification, and a pending notice at the check ends the
/// listener.
pub proof fn lemma_shutdown_seen_within_one_iteration(s: ListenerState, event: EventView)
    ensures
        in_loop(s.phase) && s.phase != ListenerPhase::CheckingShutdown ==> {
            let (t, a) = next(s, event);
            &&& in_loop(t.phase)
            &&& t.phase == ListenerPhase::CheckingShutdown || steps_to_shutdown_check(t.phase)
                < steps_to_shutdown_check(s.phase)
            &&& !(a is Receive)
            &&& a is Notify ==> s.phase == ListenerPhase::FetchingAddress
        },
        s.phase == ListenerPhase::CheckingShutdown ==> next(s, EventView::ShutdownRequested) == (
        ListenerState { phase: ListenerPhase::Terminated, message: s.message },
        ActionView::Stop(Ok(())),
        ),
{
}

} // verus!
