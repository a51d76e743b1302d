use bottle::keys::classify_expired;
use bottle::keys::destination_key;
use bottle::keys::destination_set_name;
use bottle::keys::message_key;
use bottle::keys::push_decimal;
use bottle::keys::starts_with;
use bottle::keys::trigger_key;
use bottle::keys::ExpiredKey;

#[test]
fn message_key_of_zero_hash() {
    assert_eq!(message_key(0), "msg-0");
}

#[test]
fn message_key_writes_every_digit() {
    assert_eq!(message_key(1234567890), "msg-1234567890");
    assert_eq!(message_key(10), "msg-10");
}

#[test]
fn message_key_of_largest_hash() {
    assert_eq!(message_key(u64::MAX), "msg-18446744073709551615");
}

#[test]
fn destination_key_has_its_prefix() {
    assert_eq!(destination_key(42), "dest-42");
}

#[test]
fn trigger_key_prefixes_message_key() {
    assert_eq!(trigger_key("msg-7"), "trigger:msg-7");
}

#[test]
fn destination_set_is_named_destinations() {
    assert_eq!(destination_set_name(), "destinations");
}

#[test]
fn push_decimal_appends() {
    let mut s = String::from("n=");
    push_decimal(&mut s, 907);
    assert_eq!(s, "n=907");
}

#[test]
fn starts_with_checks_prefix() {
    assert!(starts_with("trigger:msg-1", "trigger:"));
    assert!(starts_with("abc", ""));
    assert!(!starts_with("trig", "trigger:"));
    assert!(!starts_with("dest-1", "msg-"));
}

#[test]
fn classify_trigger_names_message_key() {
    assert_eq!(
        classify_expired("trigger:msg-123"),
        ExpiredKey::Trigger { message_key: String::from("msg-123") }
    );
}

#[test]
fn classify_destination_keeps_whole_key() {
    assert_eq!(
        classify_expired("dest-99"),
        ExpiredKey::Destination { key: String::from("dest-99") }
    );
}

#[test]
fn classify_ignores_other_keys() {
    assert_eq!(classify_expired("msg-123"), ExpiredKey::Other);
    assert_eq!(classify_expired("trigger:other"), ExpiredKey::Other);
    assert_eq!(classify_expired("health"), ExpiredKey::Other);
    assert_eq!(classify_expired(""), ExpiredKey::Other);
}

#[test]
fn classify_trigger_of_generated_key() {
    let key = message_key(555);
    let trigger = trigger_key(&key);
    assert_eq!(classify_expired(&trigger), ExpiredKey::Trigger { message_key: key });
}

#[test]
fn keys_of_distinct_hashes_differ() {
    assert_ne!(message_key(1), message_key(10));
    assert_ne!(message_key(12), message_key(21));
    assert_ne!(destination_key(0), destination_key(100));
}
