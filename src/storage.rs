//! The store's command vocabulary and the repository of messages and destinations.
//!
//! Nothing here talks to the store: the repository says which atomic batch of
//! commands a write is, and the caller runs the batch and reports how it went.

use vstd::prelude::*;
use crate::hashing::calculate_hash;
use crate::hashing::content_hash;
use crate::keys::destination_key;
use crate::keys::destination_key_for;
use crate::keys::destination_set;
use crate::keys::destination_set_name;
use crate::keys::message_key;
use crate::keys::message_key_for;
use crate::keys::trigger_key;
use crate::keys::trigger_key_for;
use crate::keys::classify;
use crate::keys::lemma_expired_keys_classified;
use crate::keys::ExpiredKeyView;

verus! {

/// Seconds a trigger key lives before its expiration fires delivery.
pub const TRIGGER_TTL_SECONDS: u64 = 1;

/// Seconds a message stays readable in the store.
pub const MESSAGE_TTL_SECONDS: u64 = 60;

/// Seconds a destination entry stays in the store.
pub const DESTINATION_TTL_SECONDS: u64 = 60;

/// Seconds the health probe key lives.
pub const HEALTH_TTL_SECONDS: u64 = 1;

/// One primitive of the key-value store.
#[derive(Debug, PartialEq, Eq, Clone)]
pub enum StoreCommand {
    /// `SETEX key ttl value`.
    SetWithExpiry { key: String, value: String, ttl_seconds: u64 },
    /// `SADD set member`.
    AddToSet { set: String, member: String },
    /// `SREM set member`.
    RemoveFromSet { set: String, member: String },
    /// `SRANDMEMBER set`.
    RandomSetMember { set: String },
    /// `GET key`.
    Get { key: String },
    /// `CONFIG SET parameter value`.
    ConfigSet { parameter: String, value: String },
    /// `PSUBSCRIBE pattern`.
    SubscribePattern { pattern: String },
    /// Bound on how long one receive on the subscription waits.
    SetPollTimeout { millis: u64 },
}

/// The mathematical form of [`StoreCommand`].
pub enum CommandView {
    SetWithExpiry { key: Seq<char>, value: Seq<char>, ttl_seconds: u64 },
    AddToSet { set: Seq<char>, member: Seq<char> },
    RemoveFromSet { set: Seq<char>, member: Seq<char> },
    RandomSetMember { set: Seq<char> },
    Get { key: Seq<char> },
    ConfigSet { parameter: Seq<char>, value: Seq<char> },
    SubscribePattern { pattern: Seq<char> },
    SetPollTimeout { millis: u64 },
}

impl View for StoreCommand {
    type V = CommandView;

    open spec fn view(&self) -> CommandView {
        match self {
            StoreCommand::SetWithExpiry { key, value, ttl_seconds } => CommandView::SetWithExpiry {
                key: key@,
                value: value@,
                ttl_seconds: *ttl_seconds,
            },
            StoreCommand::AddToSet { set, member } => CommandView::AddToSet {
                set: set@,
                member: member@,
            },
            StoreCommand::RemoveFromSet { set, member } => CommandView::RemoveFromSet {
                set: set@,
                member: member@,
            },
            StoreCommand::RandomSetMember { set } => CommandView::RandomSetMember { set: set@ },
            StoreCommand::Get { key } => CommandView::Get { key: key@ },
            StoreCommand::ConfigSet { parameter, value } => CommandView::ConfigSet {
                parameter: parameter@,
                value: value@,
            },
            StoreCommand::SubscribePattern { pattern } => CommandView::SubscribePattern {
                pattern: pattern@,
            },
            StoreCommand::SetPollTimeout { millis } => CommandView::SetPollTimeout {
                millis: *millis,
            },
        }
    }
}

/// A failed store command, with the backend's diagnostic text.
#[derive(Debug, PartialEq, Eq, Clone)]
pub struct StoreError {
    pub detail: String,
}

/// Commands that the store runs all or none of, and the key that the write is known by.
#[derive(Debug, PartialEq, Eq, Clone)]
pub struct WriteBatch {
    pub key: String,
    pub commands: Vec<StoreCommand>,
}

/// The mathematical form of [`WriteBatch`].
pub struct WriteBatchView {
    pub key: Seq<char>,
    pub commands: Seq<CommandView>,
}

impl View for WriteBatch {
    type V = WriteBatchView;

    open spec fn view(&self) -> WriteBatchView {
        WriteBatchView { key: self.key@, commands: self.commands@.map_values(|c: StoreCommand| c@) }
    }
}

impl WriteBatch {
    /// The result of the write once the store has run the batch: its key when the store
    /// accepted it, else the store's error.
    pub fn complete(self, outcome: Result<(), StoreError>) -> (r: Result<String, StoreError>)
        ensures
            outcome is Ok ==> r == Ok::<String, StoreError>(self.key),
            outcome matches Err(e) ==> r == Err::<String, StoreError>(e),
    {
        match outcome {
            Ok(()) => Ok(self.key),
            Err(e) => Err(e),
        }
    }
}

/// The batch that stores a message: first its trigger key, empty and short-lived, then
/// the message itself under `msg-<hash>`.
pub open spec fn message_batch(content: Seq<char>) -> WriteBatchView {
    let key = message_key_for(content_hash(content));
    WriteBatchView {
        key,
        commands: seq![
            CommandView::SetWithExpiry {
                key: trigger_key_for(key),
                value: Seq::empty(),
                ttl_seconds: TRIGGER_TTL_SECONDS,
            },
            CommandView::SetWithExpiry { key, value: content, ttl_seconds: MESSAGE_TTL_SECONDS },
        ],
    }
}

/// The batch that registers a destination: its key joins the destination set, and the
/// address is stored under `dest-<hash>`.
pub open spec fn destination_batch(address: Seq<char>) -> WriteBatchView {
    let key = destination_key_for(content_hash(address));
    WriteBatchView {
        key,
        commands: seq![
            CommandView::AddToSet { set: destination_set(), member: key },
            CommandView::SetWithExpiry {
                key,
                value: address,
                ttl_seconds: DESTINATION_TTL_SECONDS,
            },
        ],
    }
}

/// The probe write of the health check: `health` set to `42` for one second.
pub open spec fn health_probe() -> CommandView {
    CommandView::SetWithExpiry {
        key: seq!['h', 'e', 'a', 'l', 't', 'h'],
        value: seq!['4', '2'],
        ttl_seconds: HEALTH_TTL_SECONDS,
    }
}

/// A text message to deliver later.
#[derive(Debug, PartialEq, Eq, Clone)]
pub struct BottleMessage {
    pub msg: String,
}

/// An address that messages can be delivered to.
#[derive(Debug, PartialEq, Eq, Clone)]
pub struct BottleDestination {
    pub email: String,
}

/// The writes of the message and destination repository, and its health probe.
pub trait Storage {
    /// The probe write whose acceptance shows that the store is up.
    fn health(&self) -> (r: StoreCommand)
        ensures
            r@ == health_probe(),
    ;

    /// The atomic batch that stores `bottle` for later delivery.
    fn store_message(&self, bottle: &BottleMessage) -> (r: WriteBatch)
        ensures
            r@ == message_batch(bottle.msg@),
    ;

    /// The atomic batch that registers `destination`.
    fn store_destination(&self, destination: &BottleDestination) -> (r: WriteBatch)
        ensures
            r@ == destination_batch(destination.email@),
    ;
}

/// The repository on a Redis store.
#[derive(Debug, Clone, Copy)]
pub struct RedisStorage {}

impl Storage for RedisStorage {
    fn health(&self) -> (r: StoreCommand) {
        proof {
            reveal_strlit("health");
            reveal_strlit("42");
            assert("health"@ =~= seq!['h', 'e', 'a', 'l', 't', 'h']);
            assert("42"@ =~= seq!['4', '2']);
        }
        let r = StoreCommand::SetWithExpiry {
            key: String::from_str("health"),
            value: String::from_str("42"),
            ttl_seconds: HEALTH_TTL_SECONDS,
        };
        r
    }

    fn store_message(&self, bottle: &BottleMessage) -> (r: WriteBatch) {
        let key = message_key(calculate_hash(bottle.msg.as_str()));
        let mut commands: Vec<StoreCommand> = Vec::new();
        commands.push(
            StoreCommand::SetWithExpiry {
                key: trigger_key(key.as_str()),
                value: String::new(),
                ttl_seconds: TRIGGER_TTL_SECONDS,
            },
        );
        commands.push(
            StoreCommand::SetWithExpiry {
                key: key.clone(),
                value: bottle.msg.clone(),
                ttl_seconds: MESSAGE_TTL_SECONDS,
            },
        );
        let r = WriteBatch { key, commands };
        assert(r@.commands =~= message_batch(bottle.msg@).commands);
        r
    }

    fn store_destination(&self, destination: &BottleDestination) -> (r: WriteBatch) {
        let key = destination_key(calculate_hash(destination.email.as_str()));
        let mut commands: Vec<StoreCommand> = Vec::new();
        commands.push(StoreCommand::AddToSet { set: destination_set_name(), member: key.clone() });
        commands.push(
            StoreCommand::SetWithExpiry {
                key: key.clone(),
                value: destination.email.clone(),
                ttl_seconds: DESTINATION_TTL_SECONDS,
            },
        );
        let r = WriteBatch { key, commands };
        assert(r@.commands =~= destination_batch(destination.email@).commands);
        r
    }
}

/// The answer of the health check once the probe write has run: success exactly when
/// the store accepted the write, else its error.
pub fn health_status(outcome: Result<(), StoreError>) -> (r: Result<(), StoreError>)
    ensures
        r is Ok <==> outcome is Ok,
        outcome matches Err(e) ==> r == Err::<(), StoreError>(e),
{
    match outcome {
        Ok(()) => Ok(()),
        Err(e) => Err(e),
    }
}

/// A stored message outlives its trigger: the trigger key is written with a shorter
/// time to live than the message key, and its expiration names that message key.
pub proof fn lemma_trigger_expires_before_message(content: Seq<char>)
    ensures
        ({
            let batch = message_batch(content);
            &&& batch.commands[0] matches CommandView::SetWithExpiry {
                key: trigger,
                ttl_seconds: trigger_ttl,
                ..
            }
            &&& batch.commands[1] matches CommandView::SetWithExpiry {
                key: message,
                ttl_seconds: message_ttl,
                ..
            }
            &&& trigger_ttl < message_ttl
            &&& message == batch.key
            &&& classify(trigger) == (ExpiredKeyView::Trigger { message_key: message })
        }),
{
    lemma_expired_keys_classified(content_hash(content));
}

/// The keys under which a message or a destination is stored depend on its content
/// alone: equal contents are stored under equal keys.
pub proof fn lemma_keys_follow_content(a: Seq<char>, b: Seq<char>)
    requires
        a == b,
    ensures
        message_batch(a).key == message_batch(b).key,
        destination_batch(a).key == destination_batch(b).key,
        message_batch(a).key == message_key_for(content_hash(a)),
        destination_batch(a).key == destination_key_for(content_hash(a)),
{
}

} // verus!
