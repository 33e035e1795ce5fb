//! Statement-verification core for a confidential-position protocol.
//!
//! A party proves facts about a private financial position (ownership of a
//! secret-derived commitment, sufficient balance, compliance certification,
//! non-sanctioned status, valid trade parameters) without revealing the
//! underlying witness data.  This crate holds the part a verifier must
//! re-check bit for bit: the commitment/nullifier scheme, the Merkle
//! inclusion verifier, the five statement predicates, and the fixed-layout
//! codec for their public outputs.  Proof generation itself is the business
//! of an external proving backend and stays outside this crate.

pub mod balance;
pub mod byteutil;
pub mod codec;
pub mod commitment;
pub mod compliance;
pub mod hashing;
pub mod innocence;
pub mod merkle;
pub mod ownership;
pub mod reject;
pub mod trade;

pub use commitment::{compute_commitment, compute_nullifier_hash};
pub use hashing::sha256_of;
pub use merkle::MerkleProof;
pub use reject::RejectReason;
