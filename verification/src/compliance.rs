//! The compliance statement: the prover holds an unexpired certificate,
//! issued over their commitment, from a compliance authority.
//!
//! This statement is retained for compatibility; the innocence statement
//! supersedes it.  The signature check here is a shape check only, not
//! signature recovery against the authority address.

use vstd::prelude::*;

use vstd::bytes::{spec_u64_from_le_bytes, u64_from_le_bytes};
use vstd::slice::slice_subrange;

use crate::byteutil::{bytes_eq, slices_eq};
use crate::commitment::{commitment_of, compute_commitment};
use crate::hashing::{sha256, sha256_of};
use crate::reject::RejectReason;

verus! {

/// Private inputs to the compliance statement.  The certificate layout is
/// `commitment (32 bytes) || validUntil (8 little-endian bytes) || opaque
/// authority payload`; the signature components come from the authority's
/// 65-byte recoverable signature.
#[derive(Clone, Debug)]
pub struct ComplianceWitness {
    pub secret: [u8; 32],
    pub nullifier: [u8; 32],
    pub certificate_data: Vec<u8>,
    pub signature_v: u8,
    pub signature_r: [u8; 32],
    pub signature_s: [u8; 32],
}

/// Public inputs to the compliance statement.
#[derive(Clone, Copy, Debug)]
pub struct ComplianceClaim {
    pub commitment: [u8; 32],
    pub compliance_authority: [u8; 20],
    pub valid_until: u64,
    pub current_timestamp: u64,
}

/// The public record an accepted compliance statement commits to.
#[derive(Clone, Copy, Debug, PartialEq, Eq)]
pub struct ComplianceProofPublicValues {
    pub commitment: [u8; 32],
    pub compliance_authority: [u8; 20],
    pub valid_until: u64,
    pub certificate_hash: [u8; 32],
}

/// The shape-only signature sanity condition the statement applies: a
/// non-zero recovery id and a non-zero leading `r` byte.  This is not
/// signature recovery; a real verifier would replace this one condition.
pub open spec fn signature_shape_ok(signature_v: u8, signature_r: Seq<u8>) -> bool {
    signature_v != 0 && signature_r[0] != 0
}

/// The checks of the compliance statement, in evaluation order; the first
/// failing check decides the reject reason.
pub open spec fn compliance_verdict(witness: ComplianceWitness, claim: ComplianceClaim) -> Result<
    (),
    RejectReason,
> {
    let cert = witness.certificate_data@;
    if commitment_of(witness.secret@, witness.nullifier@) != claim.commitment@ {
        Err(RejectReason::WitnessMismatch)
    } else if cert.len() < 40 {
        Err(RejectReason::StructuralError)
    } else if cert.subrange(0, 32) != claim.commitment@ {
        Err(RejectReason::WitnessMismatch)
    } else if spec_u64_from_le_bytes(cert.subrange(32, 40)) != claim.valid_until {
        Err(RejectReason::WitnessMismatch)
    } else if claim.current_timestamp > claim.valid_until {
        Err(RejectReason::ConstraintViolation)
    } else if !signature_shape_ok(witness.signature_v, witness.signature_r@) {
        Err(RejectReason::ConstraintViolation)
    } else {
        Ok(())
    }
}

/// Checks the shape-only signature condition.  Kept as its own public
/// function so a genuine recovery check against the authority could stand
/// in its place without touching the statement's structure.
pub fn check_signature_shape(signature_v: u8, signature_r: &[u8; 32]) -> (ok: bool)
    ensures
        ok == signature_shape_ok(signature_v, signature_r@),
{
    signature_v != 0 && signature_r[0] != 0
}

/// Evaluates the compliance statement: the recomputed commitment must match
/// the claim, the certificate must be at least 40 bytes, carry that same
/// commitment in its first 32 bytes and the claimed expiry in the next 8
/// (little-endian), the certificate must be unexpired at the claimed
/// current time (equality suffices), and the signature must pass the shape
/// check.  On acceptance the record reveals the certificate's digest.
pub fn evaluate_compliance(witness: &ComplianceWitness, claim: &ComplianceClaim) -> (outcome:
    Result<ComplianceProofPublicValues, RejectReason>)
    ensures
        outcome is Ok <==> compliance_verdict(*witness, *claim) is Ok,
        outcome matches Err(why) ==> compliance_verdict(*witness, *claim) == Err::<
            (),
            RejectReason,
        >(why),
        outcome matches Ok(out) ==> out.commitment@ == claim.commitment@
            && out.compliance_authority@ == claim.compliance_authority@ && out.valid_until
            == claim.valid_until && out.certificate_hash@ == sha256_of(witness.certificate_data@),
{
    let computed = compute_commitment(&witness.secret, &witness.nullifier);
    if !bytes_eq(&computed, &claim.commitment) {
        return Err(RejectReason::WitnessMismatch);
    }
    if witness.certificate_data.len() < 40 {
        return Err(RejectReason::StructuralError);
    }
    let cert_commitment = slice_subrange(witness.certificate_data.as_slice(), 0, 32);
    if !slices_eq(cert_commitment, claim.commitment.as_slice()) {
        return Err(RejectReason::WitnessMismatch);
    }
    let cert_valid_until = u64_from_le_bytes(
        slice_subrange(witness.certificate_data.as_slice(), 32, 40),
    );
    if cert_valid_until != claim.valid_until {
        return Err(RejectReason::WitnessMismatch);
    }
    if claim.current_timestamp > claim.valid_until {
        return Err(RejectReason::ConstraintViolation);
    }
    if !check_signature_shape(witness.signature_v, &witness.signature_r) {
        return Err(RejectReason::ConstraintViolation);
    }
    let certificate_hash = compute_certificate_hash(&witness.certificate_data);
    Ok(
        ComplianceProofPublicValues {
            commitment: claim.commitment,
            compliance_authority: claim.compliance_authority,
            valid_until: claim.valid_until,
            certificate_hash,
        },
    )
}

/// Digests a whole certificate.
pub fn compute_certificate_hash(certificate_data: &Vec<u8>) -> (hash: [u8; 32])
    ensures
        hash@ == sha256_of(certificate_data@),
{
    sha256(certificate_data.as_slice())
}

} // verus!
