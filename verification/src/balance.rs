//! The balance statement: the prover holds at least a claimed minimum of an
//! asset, and the position is recorded in a Merkle tree under a public root.

use vstd::prelude::*;

use vstd::bytes::{spec_u64_to_le_bytes, u64_to_le_bytes};

use crate::byteutil::{bytes_eq, push_bytes};
use crate::commitment::{commitment_of, compute_commitment};
use crate::hashing::{sha256, sha256_of};
use crate::merkle::MerkleProof;
use crate::reject::RejectReason;

verus! {

/// Private inputs to the balance statement.
#[derive(Clone, Debug)]
pub struct BalanceWitness {
    pub secret: [u8; 32],
    pub nullifier: [u8; 32],
    pub actual_balance: u64,
    pub merkle_proof: MerkleProof,
}

/// Public inputs to the balance statement.
#[derive(Clone, Copy, Debug)]
pub struct BalanceClaim {
    pub commitment: [u8; 32],
    pub merkle_root: [u8; 32],
    pub min_balance: u64,
    pub asset_id: u64,
}

/// The public record an accepted balance statement commits to.
#[derive(Clone, Copy, Debug, PartialEq, Eq)]
pub struct BalanceProofPublicValues {
    pub commitment: [u8; 32],
    pub merkle_root: [u8; 32],
    pub min_balance: u64,
    pub asset_id: u64,
}

/// The tree leaf that records a position:
/// `Hash(commitment || assetId as 8 little-endian bytes || balance as 8 little-endian bytes)`.
pub open spec fn balance_leaf_of(commitment: Seq<u8>, asset_id: u64, balance: u64) -> Seq<u8> {
    sha256_of(commitment + spec_u64_to_le_bytes(asset_id) + spec_u64_to_le_bytes(balance))
}

/// The checks of the balance statement, in evaluation order; the first
/// failing check decides the reject reason.
pub open spec fn balance_verdict(witness: BalanceWitness, claim: BalanceClaim) -> Result<
    (),
    RejectReason,
> {
    if commitment_of(witness.secret@, witness.nullifier@) != claim.commitment@ {
        Err(RejectReason::WitnessMismatch)
    } else if witness.actual_balance < claim.min_balance {
        Err(RejectReason::ConstraintViolation)
    } else if balance_leaf_of(claim.commitment@, claim.asset_id, witness.actual_balance)
        != witness.merkle_proof.leaf@ {
        Err(RejectReason::WitnessMismatch)
    } else if !witness.merkle_proof.wf() {
        Err(RejectReason::StructuralError)
    } else if witness.merkle_proof.computed_root() != claim.merkle_root@ {
        Err(RejectReason::WitnessMismatch)
    } else {
        Ok(())
    }
}

/// Recomputes the tree leaf for a position.
pub fn compute_balance_leaf(commitment: &[u8; 32], asset_id: u64, balance: u64) -> (leaf: [u8; 32])
    ensures
        leaf@ == balance_leaf_of(commitment@, asset_id, balance),
{
    let asset_bytes = u64_to_le_bytes(asset_id);
    let balance_bytes = u64_to_le_bytes(balance);
    let mut data: Vec<u8> = Vec::new();
    push_bytes(&mut data, commitment.as_slice());
    push_bytes(&mut data, asset_bytes.as_slice());
    push_bytes(&mut data, balance_bytes.as_slice());
    sha256(data.as_slice())
}

/// Evaluates the balance statement: the recomputed commitment must match
/// the claim, the actual balance must reach the claimed minimum (equality
/// suffices), the supplied leaf must equal the recomputed one, and the
/// Merkle proof must lead from that leaf to the claimed root.
pub fn evaluate_balance(witness: &BalanceWitness, claim: &BalanceClaim) -> (outcome: Result<
    BalanceProofPublicValues,
    RejectReason,
>)
    ensures
        outcome is Ok <==> balance_verdict(*witness, *claim) is Ok,
        outcome matches Err(why) ==> balance_verdict(*witness, *claim) == Err::<(), RejectReason>(
            why,
        ),
        outcome matches Ok(out) ==> out.commitment@ == claim.commitment@ && out.merkle_root@
            == claim.merkle_root@ && out.min_balance == claim.min_balance && out.asset_id
            == claim.asset_id,
{
    let computed = compute_commitment(&witness.secret, &witness.nullifier);
    if !bytes_eq(&computed, &claim.commitment) {
        return Err(RejectReason::WitnessMismatch);
    }
    if witness.actual_balance < claim.min_balance {
        return Err(RejectReason::ConstraintViolation);
    }
    let leaf = compute_balance_leaf(&claim.commitment, claim.asset_id, witness.actual_balance);
    if !bytes_eq(&leaf, &witness.merkle_proof.leaf) {
        return Err(RejectReason::WitnessMismatch);
    }
    if witness.merkle_proof.path.len() != witness.merkle_proof.indices.len() {
        return Err(RejectReason::StructuralError);
    }
    if !witness.merkle_proof.verify(&claim.merkle_root) {
        return Err(RejectReason::WitnessMismatch);
    }
    Ok(
        BalanceProofPublicValues {
            commitment: claim.commitment,
            merkle_root: claim.merkle_root,
            min_balance: claim.min_balance,
            asset_id: claim.asset_id,
        },
    )
}

} // verus!
