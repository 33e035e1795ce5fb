//! The ownership statement: the prover knows the secret and nullifier
//! behind a public commitment.

use vstd::prelude::*;

use crate::byteutil::bytes_eq;
use crate::commitment::{
    commitment_of,
    compute_commitment,
    compute_nullifier_hash,
    nullifier_hash_of,
};
use crate::reject::RejectReason;

verus! {

/// Private inputs to the ownership statement.
#[derive(Clone, Copy, Debug)]
pub struct OwnershipWitness {
    pub secret: [u8; 32],
    pub nullifier: [u8; 32],
}

/// Public inputs to the ownership statement.
#[derive(Clone, Copy, Debug)]
pub struct OwnershipClaim {
    pub commitment: [u8; 32],
}

/// The public record an accepted ownership statement commits to.
#[derive(Clone, Copy, Debug, PartialEq, Eq)]
pub struct OwnershipProofPublicValues {
    pub commitment: [u8; 32],
    pub nullifier_hash: [u8; 32],
}

/// The single check of the ownership statement: the commitment recomputed
/// from the witness must equal the claimed one.
pub open spec fn ownership_verdict(witness: OwnershipWitness, claim: OwnershipClaim) -> Result<
    (),
    RejectReason,
> {
    if commitment_of(witness.secret@, witness.nullifier@) != claim.commitment@ {
        Err(RejectReason::WitnessMismatch)
    } else {
        Ok(())
    }
}

/// Evaluates the ownership statement: accepts exactly when
/// `Hash(secret || nullifier)` equals the claimed commitment, and then
/// reveals the claimed commitment together with `Hash(nullifier)`.
pub fn evaluate_ownership(witness: &OwnershipWitness, claim: &OwnershipClaim) -> (outcome: Result<
    OwnershipProofPublicValues,
    RejectReason,
>)
    ensures
        outcome is Ok <==> ownership_verdict(*witness, *claim) is Ok,
        outcome matches Err(why) ==> ownership_verdict(*witness, *claim) == Err::<
            (),
            RejectReason,
        >(why),
        outcome matches Ok(out) ==> out.commitment@ == claim.commitment@ && out.nullifier_hash@
            == nullifier_hash_of(witness.nullifier@),
{
    let computed = compute_commitment(&witness.secret, &witness.nullifier);
    if !bytes_eq(&computed, &claim.commitment) {
        return Err(RejectReason::WitnessMismatch);
    }
    let nullifier_hash = compute_nullifier_hash(&witness.nullifier);
    Ok(OwnershipProofPublicValues { commitment: claim.commitment, nullifier_hash })
}

} // verus!
