use innocence_circuits::balance::{
    compute_balance_leaf, evaluate_balance, BalanceClaim, BalanceWitness,
};
use innocence_circuits::commitment::compute_commitment;
use innocence_circuits::merkle::MerkleProof;
use innocence_circuits::reject::RejectReason;
use sha2::Digest;
use sha2::Sha256;

fn hash_pair(left: &[u8; 32], right: &[u8; 32]) -> [u8; 32] {
    let mut hasher = Sha256::new();
    hasher.update(left);
    hasher.update(right);
    hasher.finalize().into()
}

/// The depth-2 tree the proof generator builds: the position's leaf first,
/// three empty leaves beside it.
fn tree_for_leaf(leaf: [u8; 32]) -> ([u8; 32], MerkleProof) {
    let dummy = [0u8; 32];
    let left_parent = hash_pair(&leaf, &dummy);
    let right_parent = hash_pair(&dummy, &dummy);
    let root = hash_pair(&left_parent, &right_parent);
    let proof = MerkleProof {
        leaf,
        path: vec![dummy, right_parent],
        indices: vec![false, false],
    };
    (root, proof)
}

fn witness_and_claim(
    actual_balance: u64,
    min_balance: u64,
    asset_id: u64,
) -> (BalanceWitness, BalanceClaim) {
    let secret = [0x01u8; 32];
    let nullifier = [0x02u8; 32];
    let commitment = compute_commitment(&secret, &nullifier);
    let leaf = compute_balance_leaf(&commitment, asset_id, actual_balance);
    let (root, proof) = tree_for_leaf(leaf);
    let witness = BalanceWitness {
        secret,
        nullifier,
        actual_balance,
        merkle_proof: proof,
    };
    let claim = BalanceClaim {
        commitment,
        merkle_root: root,
        min_balance,
        asset_id,
    };
    (witness, claim)
}

#[test]
fn leaf_matches_the_reference_digest() {
    let commitment = [0x07u8; 32];
    let asset_id: u64 = 3;
    let balance: u64 = 1000;
    let mut data = Vec::new();
    data.extend_from_slice(&commitment);
    data.extend_from_slice(&asset_id.to_le_bytes());
    data.extend_from_slice(&balance.to_le_bytes());
    let mut hasher = Sha256::new();
    hasher.update(&data);
    let expected: [u8; 32] = hasher.finalize().into();
    assert_eq!(compute_balance_leaf(&commitment, asset_id, balance), expected);
}

#[test]
fn exact_minimum_balance_accepts() {
    let (witness, claim) = witness_and_claim(100, 100, 0);
    let accepted = evaluate_balance(&witness, &claim).expect("equal balance must accept");
    assert_eq!(accepted.commitment, claim.commitment);
    assert_eq!(accepted.merkle_root, claim.merkle_root);
    assert_eq!(accepted.min_balance, 100);
    assert_eq!(accepted.asset_id, 0);
}

#[test]
fn one_below_the_minimum_rejects() {
    let (witness, claim) = witness_and_claim(100, 101, 0);
    assert_eq!(
        evaluate_balance(&witness, &claim),
        Err(RejectReason::ConstraintViolation)
    );
}

#[test]
fn ample_balance_accepts() {
    let (witness, claim) = witness_and_claim(1000, 100, 0);
    assert!(evaluate_balance(&witness, &claim).is_ok());
}

#[test]
fn wrong_commitment_rejects() {
    let (witness, mut claim) = witness_and_claim(1000, 100, 0);
    claim.commitment[0] ^= 0x01;
    assert_eq!(
        evaluate_balance(&witness, &claim),
        Err(RejectReason::WitnessMismatch)
    );
}

#[test]
fn tampered_leaf_rejects() {
    let (mut witness, claim) = witness_and_claim(1000, 100, 0);
    witness.merkle_proof.leaf[3] ^= 0x01;
    assert_eq!(
        evaluate_balance(&witness, &claim),
        Err(RejectReason::WitnessMismatch)
    );
}

#[test]
fn wrong_root_rejects() {
    let (witness, mut claim) = witness_and_claim(1000, 100, 0);
    claim.merkle_root[0] ^= 0x01;
    assert_eq!(
        evaluate_balance(&witness, &claim),
        Err(RejectReason::WitnessMismatch)
    );
}

#[test]
fn mismatched_proof_lengths_reject() {
    let (mut witness, claim) = witness_and_claim(1000, 100, 0);
    witness.merkle_proof.indices.pop();
    assert_eq!(
        evaluate_balance(&witness, &claim),
        Err(RejectReason::StructuralError)
    );
}
