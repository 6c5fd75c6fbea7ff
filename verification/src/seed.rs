//! The address of a description's index entry: the start of a digest of the
//! text.
use vstd::prelude::*;
use vstd::utf8::encode_utf8;

verus! {

/// The number of digest bytes that address an index entry.
pub const SEED_LENGTH: usize = 16;

/// The SHA-256 digest of a sequence of bytes.
pub uninterp spec fn sha256(data: Seq<u8>) -> Seq<u8>;

/// Calls `anchor_lang::solana_program::hash::hash`, then `Hash::to_bytes`.
///
/// Trusted: the 32 bytes that come back are the SHA-256 digest of `data`, and
/// depend on nothing but `data`.
#[verifier::external_body]
fn sha256_digest(data: &[u8]) -> (digest: [u8; 32])
    ensures
        digest@ == sha256(data@),
{
    anchor_lang::solana_program::hash::hash(data).to_bytes()
}

/// The seed of a description: the first 16 bytes of the SHA-256 digest of its
/// UTF-8 encoding.
pub open spec fn seed_of_description(description: Seq<char>) -> Seq<u8> {
    sha256(encode_utf8(description)).subrange(0, SEED_LENGTH as int)
}

/// The first 16 bytes of a digest.
pub fn seed_of_digest(digest: &[u8; 32]) -> (seed: [u8; 16])
    ensures
        seed@ == digest@.subrange(0, SEED_LENGTH as int),
{
    let mut seed: [u8; 16] = [0u8; 16];
    let mut i: usize = 0;
    while i < SEED_LENGTH
        invariant
            i <= SEED_LENGTH,
            forall|j: int| 0 <= j < i ==> seed@[j] == digest@[j],
        decreases SEED_LENGTH - i,
    {
        seed[i] = digest[i];
        i += 1;
    }
    seed
}

/// The seed under which the index entry of `description` is kept. Equal
/// descriptions have equal seeds.
pub fn description_seed(description: &String) -> (seed: [u8; 16])
    ensures
        seed@ == seed_of_description(description@),
{
    let digest: [u8; 32] = sha256_digest(description.as_str().as_bytes());
    seed_of_digest(&digest)
}

} // verus!
