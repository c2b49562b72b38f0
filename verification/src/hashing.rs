//! The 64-bit hash that a password's digest is made from.
//!
//! The hash is the standard library's default hasher, freshly made, fed the
//! text exactly as `str`'s `Hash` impl feeds it. It is fast and unsalted:
//! stable within one build, and no defence against guessing.

use std::collections::hash_map::DefaultHasher;
use std::hash::Hash;
use std::hash::Hasher;
use vstd::prelude::*;
use vstd::std_specs::hash::DefaultHasherAdditionalSpecFns;

verus! {

/// The writes that hashing the text `s` makes on a hasher, in order, each
/// as the bytes it hands over.
pub uninterp spec fn str_hash_writes(s: Seq<char>) -> Seq<Seq<u8>>;

/// Calls `<str as Hash>::hash` on `s` with `state` as the hasher.
///
/// Not proved: that the call leaves every earlier write in place and adds
/// writes that depend on the characters of `s` alone. Which writes those
/// are is left open; `str_hash_writes` only names them.
#[verifier::external_body]
fn feed_str(state: &mut DefaultHasher, s: &str)
    ensures
        final(state)@ == old(state)@ + str_hash_writes(s@),
{
    s.hash(state);
}

/// The hash of the text `s`: what a fresh default hasher reports once `s`
/// has been hashed into it.
pub open spec fn text_hash(s: Seq<char>) -> u64 {
    DefaultHasher::spec_finish(str_hash_writes(s))
}

/// Hashes `s` with a fresh default hasher.
pub fn hash_text(s: &str) -> (h: u64)
    ensures
        h == text_hash(s@),
{
    let mut hasher: DefaultHasher = DefaultHasher::new();
    feed_str(&mut hasher, s);
    hasher.finish()
}

} // verus!
