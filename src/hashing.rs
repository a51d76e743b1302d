//! Content hashes that identify messages and destinations.

use vstd::prelude::*;
use std::hash::Hash;
use std::hash::Hasher;

verus! {

/// The hash that std's default hasher, freshly made with `new`, gives to a string.
/// Distinct contents may share a hash; the keys built on it then collide.
pub uninterp spec fn content_hash(content: Seq<char>) -> u64;

/// Relies on `std::hash::DefaultHasher`: every hasher made by `new` starts from the same
/// fixed keys (it is not seeded per process), and `str::hash` feeds it the string's bytes,
/// so within one build the result depends on the content alone.
#[verifier::external_body]
pub fn calculate_hash(content: &str) -> (r: u64)
    ensures
        r == content_hash(content@),
{
    let mut hasher = std::hash::DefaultHasher::new();
    content.hash(&mut hasher);
    hasher.finish()
}

} // verus!
