use std::hash::{Hash, Hasher};
use twox_hash::XxHash;
use vstd::prelude::*;

verus! {

/// The 64-bit XXH64 digest, under `seed`, of a string fed through its `Hash` impl.
pub uninterp spec fn xxhash_str(item: Seq<char>, seed: u64) -> u64;

/// Relies on twox_hash's `XxHash::with_seed` and its `Hasher::finish`: the digest
/// of what `str`'s `Hash` impl writes depends on the seed and the string alone.
#[verifier::external_body]
pub(crate) fn seeded_digest(item: &str, seed: u64) -> (r: u64)
    ensures
        r == xxhash_str(item@, seed),
{
    let mut hasher = XxHash::with_seed(seed);
    item.hash(&mut hasher);
    hasher.finish()
}

} // verus!
