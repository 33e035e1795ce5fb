//! The commitment/nullifier scheme.
//!
//! A user picks a 32-byte secret and a 32-byte nullifier.  The commitment
//! `Hash(secret || nullifier)` binds the user to a position without revealing
//! either value; the nullifier hash `Hash(nullifier)` is revealed once so a
//! collaborating ledger can stop double spends.

use vstd::prelude::*;

use crate::byteutil::push_bytes;
use crate::hashing::{sha256, sha256_of};

verus! {

/// The commitment derived from a secret and a nullifier:
/// the digest of their concatenation.
pub open spec fn commitment_of(secret: Seq<u8>, nullifier: Seq<u8>) -> Seq<u8> {
    sha256_of(secret + nullifier)
}

/// The revealable hash of a nullifier.
pub open spec fn nullifier_hash_of(nullifier: Seq<u8>) -> Seq<u8> {
    sha256_of(nullifier)
}

/// Derives the commitment `Hash(secret || nullifier)`.
pub fn compute_commitment(secret: &[u8; 32], nullifier: &[u8; 32]) -> (commitment: [u8; 32])
    ensures
        commitment@ == commitment_of(secret@, nullifier@),
{
    let mut joined: Vec<u8> = Vec::new();
    push_bytes(&mut joined, secret.as_slice());
    push_bytes(&mut joined, nullifier.as_slice());
    sha256(joined.as_slice())
}

/// Derives the nullifier hash `Hash(nullifier)`.
pub fn compute_nullifier_hash(nullifier: &[u8; 32]) -> (hash: [u8; 32])
    ensures
        hash@ == nullifier_hash_of(nullifier@),
{
    let mut data: Vec<u8> = Vec::new();
    push_bytes(&mut data, nullifier.as_slice());
    sha256(data.as_slice())
}

/// Commitments are deterministic: the derived commitment depends on the
/// secret and nullifier bytes alone, so repeated derivations agree.  That
/// distinct inputs yield distinct commitments is a collision-resistance
/// property of the hash primitive, which this crate assumes rather than
/// states.
pub proof fn lemma_commitment_deterministic(
    secret1: Seq<u8>,
    nullifier1: Seq<u8>,
    secret2: Seq<u8>,
    nullifier2: Seq<u8>,
)
    requires
        secret1 == secret2,
        nullifier1 == nullifier2,
    ensures
        commitment_of(secret1, nullifier1) == commitment_of(secret2, nullifier2),
        nullifier_hash_of(nullifier1) == nullifier_hash_of(nullifier2),
{
}

} // verus!
