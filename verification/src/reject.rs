//! Why a statement evaluation rejects.

use vstd::prelude::*;

verus! {

/// The reason an evaluation rejected.  Every failed check is terminal for
/// the whole evaluation: the predicate rejects as a unit and no partial
/// output is produced.
#[derive(Clone, Copy, Debug, PartialEq, Eq, Structural)]
pub enum RejectReason {
    /// A recomputed derived value (commitment, leaf, root, certificate
    /// field) does not equal the supplied expected value.
    WitnessMismatch,
    /// A numeric or logical business rule fails: insufficient balance, zero
    /// amount, identical assets, expired certificate, balance underflow.
    ConstraintViolation,
    /// A malformed input shape: certificate too short, mismatched
    /// path/indices lengths, truncated encoded record.
    StructuralError,
}

} // verus!
