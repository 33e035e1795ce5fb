//! The one hash primitive every component shares.

use vstd::prelude::*;

use sha2::Digest;

verus! {

/// The digest that the fixed 256-bit hash assigns to a byte sequence.
///
/// Commitments, nullifier hashes, Merkle nodes, balance leaves and
/// certificate digests are all stated over this single function, so every
/// cross-check in the library agrees on one primitive.  Nothing is assumed
/// about the digest beyond determinism; in particular collision resistance
/// is a property of the primitive, not a theorem of this crate.
pub uninterp spec fn sha256_of(bytes: Seq<u8>) -> Seq<u8>;

/// Relies on sha2::Sha256 (through the Digest trait): the returned 32-byte
/// digest is a function of the input bytes alone.
#[verifier::external_body]
pub(crate) fn sha256(bytes: &[u8]) -> (digest: [u8; 32])
    ensures
        digest@ == sha256_of(bytes@),
{
    sha2::Sha256::digest(bytes).into()
}

} // verus!
