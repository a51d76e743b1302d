//! Delayed message delivery driven by key-expiration events of a key-value store.
//!
//! A message is written next to a short-lived trigger key; when the store reports
//! that the trigger expired, the expiration listener fetches the message and hands
//! it to a notification channel for a randomly chosen registered destination.

pub mod keys;
pub mod hashing;
pub mod json;
pub mod storage;
pub mod listener;
pub mod message;
pub mod http;
