use innocence_circuits::commitment::compute_commitment;
use innocence_circuits::compliance::{evaluate_compliance, ComplianceClaim, ComplianceWitness};
use innocence_circuits::reject::RejectReason;
use sha2::Digest;
use sha2::Sha256;

const AUTHORITY: [u8; 20] = [
    0x5B, 0xd2, 0xF3, 0x29, 0xC5, 0x08, 0x60, 0x36, 0x6c, 0x0E, 0x6D, 0x3b, 0x42, 0x27, 0xa4,
    0x22, 0xB6, 0x6A, 0xD2, 0x03,
];

fn witness_and_claim(valid_until: u64, current_timestamp: u64) -> (ComplianceWitness, ComplianceClaim) {
    let secret = [0x01u8; 32];
    let nullifier = [0x02u8; 32];
    let commitment = compute_commitment(&secret, &nullifier);
    let mut certificate_data = Vec::new();
    certificate_data.extend_from_slice(&commitment);
    certificate_data.extend_from_slice(&valid_until.to_le_bytes());
    certificate_data.extend_from_slice(b"USER_ID_12345");
    let witness = ComplianceWitness {
        secret,
        nullifier,
        certificate_data,
        signature_v: 27,
        signature_r: [0x01u8; 32],
        signature_s: [0x02u8; 32],
    };
    let claim = ComplianceClaim {
        commitment,
        compliance_authority: AUTHORITY,
        valid_until,
        current_timestamp,
    };
    (witness, claim)
}

#[test]
fn valid_certificate_accepts_and_reveals_its_digest() {
    let (witness, claim) = witness_and_claim(2_000_000, 1_000_000);
    let accepted = evaluate_compliance(&witness, &claim).expect("a valid certificate must accept");
    assert_eq!(accepted.commitment, claim.commitment);
    assert_eq!(accepted.compliance_authority, AUTHORITY);
    assert_eq!(accepted.valid_until, 2_000_000);
    let mut hasher = Sha256::new();
    hasher.update(&witness.certificate_data);
    let expected: [u8; 32] = hasher.finalize().into();
    assert_eq!(accepted.certificate_hash, expected);
}

#[test]
fn expiry_moment_still_accepts() {
    let (witness, claim) = witness_and_claim(2_000_000, 2_000_000);
    assert!(evaluate_compliance(&witness, &claim).is_ok());
}

#[test]
fn expired_certificate_rejects() {
    let (witness, claim) = witness_and_claim(2_000_000, 2_000_001);
    assert_eq!(
        evaluate_compliance(&witness, &claim),
        Err(RejectReason::ConstraintViolation)
    );
}

#[test]
fn short_certificate_rejects() {
    let (mut witness, claim) = witness_and_claim(2_000_000, 1_000_000);
    witness.certificate_data.truncate(39);
    assert_eq!(
        evaluate_compliance(&witness, &claim),
        Err(RejectReason::StructuralError)
    );
}

#[test]
fn certificate_for_another_commitment_rejects() {
    let (mut witness, claim) = witness_and_claim(2_000_000, 1_000_000);
    witness.certificate_data[5] ^= 0x01;
    assert_eq!(
        evaluate_compliance(&witness, &claim),
        Err(RejectReason::WitnessMismatch)
    );
}

#[test]
fn certificate_expiry_mismatch_rejects() {
    let (mut witness, claim) = witness_and_claim(2_000_000, 1_000_000);
    witness.certificate_data[32] ^= 0x01;
    assert_eq!(
        evaluate_compliance(&witness, &claim),
        Err(RejectReason::WitnessMismatch)
    );
}

#[test]
fn wrong_claimed_commitment_rejects() {
    let (witness, mut claim) = witness_and_claim(2_000_000, 1_000_000);
    claim.commitment[0] ^= 0x01;
    assert_eq!(
        evaluate_compliance(&witness, &claim),
        Err(RejectReason::WitnessMismatch)
    );
}

#[test]
fn zero_recovery_id_rejects() {
    let (mut witness, claim) = witness_and_claim(2_000_000, 1_000_000);
    witness.signature_v = 0;
    assert_eq!(
        evaluate_compliance(&witness, &claim),
        Err(RejectReason::ConstraintViolation)
    );
}

#[test]
fn zero_leading_signature_byte_rejects() {
    let (mut witness, claim) = witness_and_claim(2_000_000, 1_000_000);
    witness.signature_r[0] = 0;
    assert_eq!(
        evaluate_compliance(&witness, &claim),
        Err(RejectReason::ConstraintViolation)
    );
}
