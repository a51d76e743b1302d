//! Key layout in the store and classification of expired keys.

use vstd::prelude::*;

verus! {

/// The character of a decimal digit.
pub open spec fn digit_char(d: nat) -> char
    recommends
        d < 10,
{
    ((d + 48) as u32) as char
}

/// The decimal representation of `n`, most significant digit first, without leading zeros.
pub open spec fn decimal(n: nat) -> Seq<char>
    decreases n,
{
    if n < 10 {
        seq![digit_char(n)]
    } else {
        decimal(n / 10).push(digit_char(n % 10))
    }
}

fn digit_str(d: u64) -> (r: &'static str)
    requires
        d < 10,
    ensures
        r@ == seq![digit_char(d as nat)],
{
    proof {
        reveal_strlit("0");
        reveal_strlit("1");
        reveal_strlit("2");
        reveal_strlit("3");
        reveal_strlit("4");
        reveal_strlit("5");
        reveal_strlit("6");
        reveal_strlit("7");
        reveal_strlit("8");
        reveal_strlit("9");
    }
    let r = if d == 0 {
        "0"
    } else if d == 1 {
        "1"
    } else if d == 2 {
        "2"
    } else if d == 3 {
        "3"
    } else if d == 4 {
        "4"
    } else if d == 5 {
        "5"
    } else if d == 6 {
        "6"
    } else if d == 7 {
        "7"
    } else if d == 8 {
        "8"
    } else {
        "9"
    };
    assert(r@ =~= seq![digit_char(d as nat)]);
    r
}

/// Appends the decimal representation of `n` to `s`.
pub fn push_decimal(s: &mut String, n: u64)
    ensures
        final(s)@ == old(s)@ + decimal(n as nat),
    decreases n,
{
    if n >= 10 {
        push_decimal(s, n / 10);
    }
    s.append(digit_str(n % 10));
    assert(s@ =~= old(s)@ + decimal(n as nat));
}

/// Characters of the prefix of a message key.
pub open spec fn message_prefix() -> Seq<char> {
    seq!['m', 's', 'g', '-']
}

/// Characters of the prefix that turns a message key into its trigger key.
pub open spec fn trigger_prefix() -> Seq<char> {
    seq!['t', 'r', 'i', 'g', 'g', 'e', 'r', ':']
}

/// Characters of the prefix of a destination key.
pub open spec fn destination_prefix() -> Seq<char> {
    seq!['d', 'e', 's', 't', '-']
}

/// Name of the set that indexes the registered destination keys.
pub open spec fn destination_set() -> Seq<char> {
    seq!['d', 'e', 's', 't', 'i', 'n', 'a', 't', 'i', 'o', 'n', 's']
}

/// `msg-<hash>`: where a message with this content hash is stored.
pub open spec fn message_key_for(hash: u64) -> Seq<char> {
    message_prefix() + decimal(hash as nat)
}

/// `trigger:<message key>`: the marker whose expiration fires delivery of that message.
pub open spec fn trigger_key_for(message_key: Seq<char>) -> Seq<char> {
    trigger_prefix() + message_key
}

/// `dest-<hash>`: where a destination with this content hash is stored.
pub open spec fn destination_key_for(hash: u64) -> Seq<char> {
    destination_prefix() + decimal(hash as nat)
}

/// The key of a message with the given content hash.
pub fn message_key(hash: u64) -> (r: String)
    ensures
        r@ == message_key_for(hash),
{
    let mut r = String::from_str("msg-");
    proof {
        reveal_strlit("msg-");
        assert("msg-"@ =~= message_prefix());
    }
    push_decimal(&mut r, hash);
    r
}

/// The trigger key of the message stored under `message_key`.
pub fn trigger_key(message_key: &str) -> (r: String)
    ensures
        r@ == trigger_key_for(message_key@),
{
    let r = String::from_str("trigger:");
    proof {
        reveal_strlit("trigger:");
        assert("trigger:"@ =~= trigger_prefix());
    }
    r.concat(message_key)
}

/// The key of a destination with the given content hash.
pub fn destination_key(hash: u64) -> (r: String)
    ensures
        r@ == destination_key_for(hash),
{
    let mut r = String::from_str("dest-");
    proof {
        reveal_strlit("dest-");
        assert("dest-"@ =~= destination_prefix());
    }
    push_decimal(&mut r, hash);
    r
}

/// The name of the destination set.
pub fn destination_set_name() -> (r: String)
    ensures
        r@ == destination_set(),
{
    proof {
        reveal_strlit("destinations");
    }
    let r = String::from_str("destinations");
    assert(r@ =~= destination_set());
    r
}

/// Whether `s` starts with `prefix`.
pub fn starts_with(s: &str, prefix: &str) -> (r: bool)
    ensures
        r == prefix@.is_prefix_of(s@),
{
    let n = prefix.unicode_len();
    if s.unicode_len() < n {
        return false;
    }
    let mut i: usize = 0;
    while i < n
        invariant
            n == prefix@.len(),
            n <= s@.len(),
            i <= n,
            forall|j: int| 0 <= j < i ==> prefix@[j] == s@[j],
        decreases n - i,
    {
        if prefix.get_char(i) != s.get_char(i) {
            return false;
        }
        i = i + 1;
    }
    assert(prefix@ =~= s@.subrange(0, prefix@.len() as int));
    true
}

/// What an expired key stands for, as the listener sees it.
#[derive(Debug, PartialEq, Eq, Clone)]
pub enum ExpiredKey {
    /// A trigger fired: deliver the message stored under `message_key`.
    Trigger { message_key: String },
    /// A destination entry expired: drop `key` from the destination set.
    Destination { key: String },
    /// Any other key: nothing to do.
    Other,
}

/// The mathematical form of [`ExpiredKey`].
pub enum ExpiredKeyView {
    Trigger { message_key: Seq<char> },
    Destination { key: Seq<char> },
    Other,
}

impl View for ExpiredKey {
    type V = ExpiredKeyView;

    open spec fn view(&self) -> ExpiredKeyView {
        match self {
            ExpiredKey::Trigger { message_key } => ExpiredKeyView::Trigger {
                message_key: message_key@,
            },
            ExpiredKey::Destination { key } => ExpiredKeyView::Destination { key: key@ },
            ExpiredKey::Other => ExpiredKeyView::Other,
        }
    }
}

/// How the listener reads an expired key: `trigger:msg-...` names the message key after
/// `trigger:`, `dest-...` is a destination key, anything else is ignored.
pub open spec fn classify(payload: Seq<char>) -> ExpiredKeyView {
    if (trigger_prefix() + message_prefix()).is_prefix_of(payload) {
        ExpiredKeyView::Trigger { message_key: payload.skip(trigger_prefix().len() as int) }
    } else if destination_prefix().is_prefix_of(payload) {
        ExpiredKeyView::Destination { key: payload }
    } else {
        ExpiredKeyView::Other
    }
}

/// Classifies the payload of an expiration event.
pub fn classify_expired(payload: &str) -> (r: ExpiredKey)
    ensures
        r@ == classify(payload@),
{
    proof {
        reveal_strlit("trigger:msg-");
        reveal_strlit("dest-");
        assert("trigger:msg-"@ =~= trigger_prefix() + message_prefix());
        assert("dest-"@ =~= destination_prefix());
    }
    if starts_with(payload, "trigger:msg-") {
        let rest = payload.substring_char(8, payload.unicode_len());
        ExpiredKey::Trigger { message_key: String::from_str(rest) }
    } else if starts_with(payload, "dest-") {
        ExpiredKey::Destination { key: String::from_str(payload) }
    } else {
        ExpiredKey::Other
    }
}


/// The keys that the store writes are told apart when they expire: the trigger key of a
/// message names that message's key, a destination key is a destination, and the
/// expiry of a message key itself asks for nothing.
pub proof fn lemma_expired_keys_classified(hash: u64)
    ensures
        classify(trigger_key_for(message_key_for(hash))) == (ExpiredKeyView::Trigger {
            message_key: message_key_for(hash),
        }),
        classify(destination_key_for(hash)) == (ExpiredKeyView::Destination {
            key: destination_key_for(hash),
        }),
        classify(message_key_for(hash)) == ExpiredKeyView::Other,
{
    let m = message_key_for(hash);
    let t = trigger_key_for(m);
    let d = destination_key_for(hash);
    assert((trigger_prefix() + message_prefix()) =~= t.subrange(0, 12));
    assert(t.skip(8) =~= m);
    assert(destination_prefix() =~= d.subrange(0, 5));
    assert(!(trigger_prefix() + message_prefix()).is_prefix_of(d)) by {
        assert(d[0] != (trigger_prefix() + message_prefix())[0]);
    }
    assert(!(trigger_prefix() + message_prefix()).is_prefix_of(m)) by {
        assert(m[0] != (trigger_prefix() + message_prefix())[0]);
    }
    assert(!destination_prefix().is_prefix_of(m)) by {
        assert(m[0] != destination_prefix()[0]);
    }
}


proof fn lemma_digit_char_injective(a: nat, b: nat)
    requires
        a < 10,
        b < 10,
        digit_char(a) == digit_char(b),
    ensures
        a == b,
{
    assert(((a + 48) as u32) as char as u32 == (a + 48) as u32);
    assert(((b + 48) as u32) as char as u32 == (b + 48) as u32);
}

proof fn lemma_decimal_len(n: nat)
    ensures
        decimal(n).len() >= 1,
        n >= 10 ==> decimal(n).len() >= 2,
    decreases n,
{
    if n >= 10 {
        lemma_decimal_len(n / 10);
    }
}

proof fn lemma_decimal_injective(a: nat, b: nat)
    requires
        decimal(a) == decimal(b),
    ensures
        a == b,
    decreases a,
{
    lemma_decimal_len(a);
    lemma_decimal_len(b);
    if a < 10 && b < 10 {
        assert(decimal(a)[0] == digit_char(a));
        assert(decimal(b)[0] == digit_char(b));
        lemma_digit_char_injective(a, b);
    } else if a >= 10 && b >= 10 {
        let da = decimal(a);
        let db = decimal(b);
        assert(da.last() == db.last());
        lemma_digit_char_injective(a % 10, b % 10);
        assert(da.drop_last() =~= decimal(a / 10));
        assert(db.drop_last() =~= decimal(b / 10));
        lemma_decimal_injective(a / 10, b / 10);
    }
}

/// Keys tell hashes apart: two messages, or two destinations, share a key exactly when
/// their content hashes are equal.
pub proof fn lemma_keys_distinguish_hashes(a: u64, b: u64)
    ensures
        message_key_for(a) == message_key_for(b) <==> a == b,
        destination_key_for(a) == destination_key_for(b) <==> a == b,
{
    if message_key_for(a) == message_key_for(b) {
        assert(message_key_for(a).skip(4) =~= decimal(a as nat));
        assert(message_key_for(b).skip(4) =~= decimal(b as nat));
        lemma_decimal_injective(a as nat, b as nat);
    }
    if destination_key_for(a) == destination_key_for(b) {
        assert(destination_key_for(a).skip(5) =~= decimal(a as nat));
        assert(destination_key_for(b).skip(5) =~= decimal(b as nat));
        lemma_decimal_injective(a as nat, b as nat);
    }
}

} // verus!
