//! The fixed-layout codec for public-output records.
//!
//! Each statement's public record is laid out as consecutive 32-byte words
//! in the field order of the record: a 32-byte digest fills its word, a
//! 64-bit integer sits big-endian in the low 8 bytes of a zero-padded word,
//! a 20-byte address in the low 20 bytes, and a boolean in the last byte as
//! 0 or 1.  This layout is the wire contract with outside verifiers, so
//! decoding is strict: a record decodes exactly when it is byte-for-byte an
//! encoding, and anything else fails with a structural error.

use vstd::prelude::*;

use vstd::slice::slice_subrange;

use crate::balance::BalanceProofPublicValues;
use crate::byteutil::{
    bytes_from_slice,
    lemma_u64_be_bytes_of_read,
    lemma_u64_be_bytes_round_trip,
    push_bytes,
    push_u64_be,
    read_u64_be,
    u64_be_bytes,
};
use crate::compliance::ComplianceProofPublicValues;
use crate::innocence::InnocenceProofPublicValues;
use crate::ownership::OwnershipProofPublicValues;
use crate::reject::RejectReason;
use crate::trade::TradeProofPublicValues;

verus! {

/// `count` zero bytes.
pub open spec fn zero_bytes(count: nat) -> Seq<u8> {
    Seq::new(count, |i: int| 0u8)
}

/// A 64-bit integer as one word: 24 zero bytes, then 8 big-endian bytes.
pub open spec fn word_of_u64(value: u64) -> Seq<u8> {
    zero_bytes(24) + u64_be_bytes(value)
}

/// A 20-byte address as one word: 12 zero bytes, then the address.
pub open spec fn word_of_address(address: Seq<u8>) -> Seq<u8> {
    zero_bytes(12) + address
}

/// A boolean as one word: 31 zero bytes, then 1 for true or 0 for false.
pub open spec fn word_of_bool(flag: bool) -> Seq<u8> {
    zero_bytes(31) + seq![if flag { 1u8 } else { 0u8 }]
}

/// All bytes of `encoded` in `[start, end)` are zero.
pub open spec fn zero_padded(encoded: Seq<u8>, start: int, end: int) -> bool {
    forall|i: int| start <= i < end ==> encoded[i] == 0
}

/// The word at `start` can carry a 64-bit integer: its high 24 bytes are
/// zero.
pub open spec fn u64_word_at(encoded: Seq<u8>, start: int) -> bool {
    zero_padded(encoded, start, start + 24)
}

/// The word at `start` can carry an address: its high 12 bytes are zero.
pub open spec fn address_word_at(encoded: Seq<u8>, start: int) -> bool {
    zero_padded(encoded, start, start + 12)
}

/// The word at `start` can carry a boolean: 31 zero bytes, then 0 or 1.
pub open spec fn bool_word_at(encoded: Seq<u8>, start: int) -> bool {
    zero_padded(encoded, start, start + 31) && (encoded[start + 31] == 0 || encoded[start + 31]
        == 1)
}

/// Appends `count` zero bytes.
fn push_zero_bytes(dst: &mut Vec<u8>, count: usize)
    ensures
        final(dst)@ == old(dst)@ + zero_bytes(count as nat),
{
    let ghost start = dst@;
    let mut i: usize = 0;
    while i < count
        invariant
            i <= count,
            dst@ == start + zero_bytes(i as nat),
        decreases count - i,
    {
        dst.push(0u8);
        proof {
            assert(zero_bytes((i + 1) as nat) =~= zero_bytes(i as nat).push(0u8));
        }
        i = i + 1;
    }
}

/// Appends a 64-bit integer as one zero-padded big-endian word.
fn push_u64_word(dst: &mut Vec<u8>, value: u64)
    ensures
        final(dst)@ == old(dst)@ + word_of_u64(value),
{
    let ghost start = dst@;
    push_zero_bytes(dst, 24);
    push_u64_be(dst, value);
    proof {
        assert(dst@ =~= start + word_of_u64(value));
    }
}

/// Appends a 20-byte address as one zero-padded word.
fn push_address_word(dst: &mut Vec<u8>, address: &[u8; 20])
    ensures
        final(dst)@ == old(dst)@ + word_of_address(address@),
{
    let ghost start = dst@;
    push_zero_bytes(dst, 12);
    push_bytes(dst, address.as_slice());
    proof {
        assert(dst@ =~= start + word_of_address(address@));
    }
}

/// Appends a boolean as one word ending in 1 or 0.
fn push_bool_word(dst: &mut Vec<u8>, flag: bool)
    ensures
        final(dst)@ == old(dst)@ + word_of_bool(flag),
{
    let ghost start = dst@;
    push_zero_bytes(dst, 31);
    if flag {
        dst.push(1u8);
    } else {
        dst.push(0u8);
    }
    proof {
        assert(dst@ =~= start + word_of_bool(flag));
    }
}

/// Tests that every byte of `encoded` in `[start, end)` is zero.
fn zero_range(encoded: &[u8], start: usize, end: usize) -> (all_zero: bool)
    requires
        start <= end <= encoded@.len(),
    ensures
        all_zero == zero_padded(encoded@, start as int, end as int),
{
    let mut i: usize = start;
    while i < end
        invariant
            start <= i <= end <= encoded@.len(),
            forall|k: int| start <= k < i ==> encoded@[k] == 0,
        decreases end - i,
    {
        if encoded[i] != 0 {
            return false;
        }
        i = i + 1;
    }
    true
}

/// The ownership record's layout: commitment word, nullifier-hash word.
pub open spec fn ownership_encoding(commitment: Seq<u8>, nullifier_hash: Seq<u8>) -> Seq<u8> {
    commitment + nullifier_hash
}

/// What a well-formed encoded ownership record looks like: both words are
/// full digests, so only the length is constrained.
pub open spec fn is_ownership_encoding(encoded: Seq<u8>) -> bool {
    encoded.len() == 64
}

/// Encodes an ownership record.
pub fn encode_ownership(values: &OwnershipProofPublicValues) -> (encoded: Vec<u8>)
    ensures
        encoded@ == ownership_encoding(values.commitment@, values.nullifier_hash@),
{
    let mut encoded: Vec<u8> = Vec::new();
    push_bytes(&mut encoded, values.commitment.as_slice());
    push_bytes(&mut encoded, values.nullifier_hash.as_slice());
    encoded
}

/// Decodes an ownership record; exactly the well-formed 64-byte encodings
/// decode, and the decoded record re-encodes to the same bytes.
pub fn decode_ownership(encoded: &[u8]) -> (decoded: Result<
    OwnershipProofPublicValues,
    RejectReason,
>)
    ensures
        decoded is Ok <==> is_ownership_encoding(encoded@),
        decoded matches Ok(values) ==> encoded@ == ownership_encoding(
            values.commitment@,
            values.nullifier_hash@,
        ),
        decoded matches Err(why) ==> why == RejectReason::StructuralError,
{
    if encoded.len() != 64 {
        return Err(RejectReason::StructuralError);
    }
    let commitment: [u8; 32] = bytes_from_slice(slice_subrange(encoded, 0, 32));
    let nullifier_hash: [u8; 32] = bytes_from_slice(slice_subrange(encoded, 32, 64));
    proof {
        assert(encoded@ =~= encoded@.subrange(0, 32) + encoded@.subrange(32, 64));
    }
    Ok(OwnershipProofPublicValues { commitment, nullifier_hash })
}

/// An ownership encoding built from 32-byte digests is well formed.
pub proof fn lemma_ownership_encoding_well_formed(commitment: Seq<u8>, nullifier_hash: Seq<u8>)
    requires
        commitment.len() == 32,
        nullifier_hash.len() == 32,
    ensures
        is_ownership_encoding(ownership_encoding(commitment, nullifier_hash)),
{
}

/// No two distinct ownership records share an encoding; with the encode and
/// decode contracts this says decoding an encoded record restores the
/// record.
pub proof fn lemma_ownership_encoding_injective(
    commitment1: Seq<u8>,
    nullifier_hash1: Seq<u8>,
    commitment2: Seq<u8>,
    nullifier_hash2: Seq<u8>,
)
    requires
        commitment1.len() == 32,
        nullifier_hash1.len() == 32,
        commitment2.len() == 32,
        nullifier_hash2.len() == 32,
        ownership_encoding(commitment1, nullifier_hash1) == ownership_encoding(
            commitment2,
            nullifier_hash2,
        ),
    ensures
        commitment1 == commitment2,
        nullifier_hash1 == nullifier_hash2,
{
    let encoded = ownership_encoding(commitment1, nullifier_hash1);
    assert(commitment1 =~= encoded.subrange(0, 32));
    assert(nullifier_hash1 =~= encoded.subrange(32, 64));
    assert(commitment2 =~= encoded.subrange(0, 32));
    assert(nullifier_hash2 =~= encoded.subrange(32, 64));
}

/// The balance record's layout: commitment word, root word, minimum-balance
/// word, asset word.
pub open spec fn balance_encoding(
    commitment: Seq<u8>,
    merkle_root: Seq<u8>,
    min_balance: u64,
    asset_id: u64,
) -> Seq<u8> {
    commitment + merkle_root + word_of_u64(min_balance) + word_of_u64(asset_id)
}

/// What a well-formed encoded balance record looks like.
pub open spec fn is_balance_encoding(encoded: Seq<u8>) -> bool {
    encoded.len() == 128 && u64_word_at(encoded, 64) && u64_word_at(encoded, 96)
}

/// Encodes a balance record.
pub fn encode_balance(values: &BalanceProofPublicValues) -> (encoded: Vec<u8>)
    ensures
        encoded@ == balance_encoding(
            values.commitment@,
            values.merkle_root@,
            values.min_balance,
            values.asset_id,
        ),
{
    let mut encoded: Vec<u8> = Vec::new();
    push_bytes(&mut encoded, values.commitment.as_slice());
    push_bytes(&mut encoded, values.merkle_root.as_slice());
    push_u64_word(&mut encoded, values.min_balance);
    push_u64_word(&mut encoded, values.asset_id);
    encoded
}

/// Decodes a balance record; exactly the well-formed 128-byte encodings
/// decode, and the decoded record re-encodes to the same bytes.
pub fn decode_balance(encoded: &[u8]) -> (decoded: Result<BalanceProofPublicValues, RejectReason>)
    ensures
        decoded is Ok <==> is_balance_encoding(encoded@),
        decoded matches Ok(values) ==> encoded@ == balance_encoding(
            values.commitment@,
            values.merkle_root@,
            values.min_balance,
            values.asset_id,
        ),
        decoded matches Err(why) ==> why == RejectReason::StructuralError,
{
    if encoded.len() != 128 {
        return Err(RejectReason::StructuralError);
    }
    if !zero_range(encoded, 64, 88) {
        return Err(RejectReason::StructuralError);
    }
    if !zero_range(encoded, 96, 120) {
        return Err(RejectReason::StructuralError);
    }
    let commitment: [u8; 32] = bytes_from_slice(slice_subrange(encoded, 0, 32));
    let merkle_root: [u8; 32] = bytes_from_slice(slice_subrange(encoded, 32, 64));
    let min_balance = read_u64_be(slice_subrange(encoded, 88, 96));
    let asset_id = read_u64_be(slice_subrange(encoded, 120, 128));
    proof {
        lemma_u64_be_bytes_of_read(encoded@.subrange(88, 96));
        lemma_u64_be_bytes_of_read(encoded@.subrange(120, 128));
        assert(word_of_u64(min_balance) =~= encoded@.subrange(64, 96));
        assert(word_of_u64(asset_id) =~= encoded@.subrange(96, 128));
        assert(encoded@ =~= encoded@.subrange(0, 32) + encoded@.subrange(32, 64)
            + encoded@.subrange(64, 96) + encoded@.subrange(96, 128));
    }
    Ok(BalanceProofPublicValues { commitment, merkle_root, min_balance, asset_id })
}

/// A balance encoding built from 32-byte digests is well formed.
pub proof fn lemma_balance_encoding_well_formed(
    commitment: Seq<u8>,
    merkle_root: Seq<u8>,
    min_balance: u64,
    asset_id: u64,
)
    requires
        commitment.len() == 32,
        merkle_root.len() == 32,
    ensures
        is_balance_encoding(balance_encoding(commitment, merkle_root, min_balance, asset_id)),
{
    let encoded = balance_encoding(commitment, merkle_root, min_balance, asset_id);
    assert(encoded.len() == 128);
    assert forall|i: int| 64 <= i < 88 implies encoded[i] == 0 by {
        assert(encoded[i] == word_of_u64(min_balance)[i - 64]);
    }
    assert forall|i: int| 96 <= i < 120 implies encoded[i] == 0 by {
        assert(encoded[i] == word_of_u64(asset_id)[i - 96]);
    }
}

/// No two distinct balance records share an encoding; with the encode and
/// decode contracts this says decoding an encoded record restores the
/// record.
pub proof fn lemma_balance_encoding_injective(
    commitment1: Seq<u8>,
    merkle_root1: Seq<u8>,
    min_balance1: u64,
    asset_id1: u64,
    commitment2: Seq<u8>,
    merkle_root2: Seq<u8>,
    min_balance2: u64,
    asset_id2: u64,
)
    requires
        commitment1.len() == 32,
        merkle_root1.len() == 32,
        commitment2.len() == 32,
        merkle_root2.len() == 32,
        balance_encoding(commitment1, merkle_root1, min_balance1, asset_id1) == balance_encoding(
            commitment2,
            merkle_root2,
            min_balance2,
            asset_id2,
        ),
    ensures
        commitment1 == commitment2,
        merkle_root1 == merkle_root2,
        min_balance1 == min_balance2,
        asset_id1 == asset_id2,
{
    let encoded = balance_encoding(commitment1, merkle_root1, min_balance1, asset_id1);
    assert(commitment1 =~= encoded.subrange(0, 32));
    assert(commitment2 =~= encoded.subrange(0, 32));
    assert(merkle_root1 =~= encoded.subrange(32, 64));
    assert(merkle_root2 =~= encoded.subrange(32, 64));
    assert(u64_be_bytes(min_balance1) =~= encoded.subrange(88, 96));
    assert(u64_be_bytes(min_balance2) =~= encoded.subrange(88, 96));
    assert(u64_be_bytes(asset_id1) =~= encoded.subrange(120, 128));
    assert(u64_be_bytes(asset_id2) =~= encoded.subrange(120, 128));
    lemma_u64_be_bytes_round_trip(min_balance1);
    lemma_u64_be_bytes_round_trip(min_balance2);
    lemma_u64_be_bytes_round_trip(asset_id1);
    lemma_u64_be_bytes_round_trip(asset_id2);
}

/// The trade record's layout: commitment word, then one word each for the
/// source asset, target asset, spent amount and minimum received amount.
pub open spec fn trade_encoding(
    commitment: Seq<u8>,
    from_asset: u64,
    to_asset: u64,
    from_amount: u64,
    min_to_amount: u64,
) -> Seq<u8> {
    commitment + word_of_u64(from_asset) + word_of_u64(to_asset) + word_of_u64(from_amount)
        + word_of_u64(min_to_amount)
}

/// What a well-formed encoded trade record looks like.
pub open spec fn is_trade_encoding(encoded: Seq<u8>) -> bool {
    encoded.len() == 160 && u64_word_at(encoded, 32) && u64_word_at(encoded, 64) && u64_word_at(
        encoded,
        96,
    ) && u64_word_at(encoded, 128)
}

/// Encodes a trade record.
pub fn encode_trade(values: &TradeProofPublicValues) -> (encoded: Vec<u8>)
    ensures
        encoded@ == trade_encoding(
            values.commitment@,
            values.from_asset,
            values.to_asset,
            values.from_amount,
            values.min_to_amount,
        ),
{
    let mut encoded: Vec<u8> = Vec::new();
    push_bytes(&mut encoded, values.commitment.as_slice());
    push_u64_word(&mut encoded, values.from_asset);
    push_u64_word(&mut encoded, values.to_asset);
    push_u64_word(&mut encoded, values.from_amount);
    push_u64_word(&mut encoded, values.min_to_amount);
    encoded
}

/// Decodes a trade record; exactly the well-formed 160-byte encodings
/// decode, and the decoded record re-encodes to the same bytes.
pub fn decode_trade(encoded: &[u8]) -> (decoded: Result<TradeProofPublicValues, RejectReason>)
    ensures
        decoded is Ok <==> is_trade_encoding(encoded@),
        decoded matches Ok(values) ==> encoded@ == trade_encoding(
            values.commitment@,
            values.from_asset,
            values.to_asset,
            values.from_amount,
            values.min_to_amount,
        ),
        decoded matches Err(why) ==> why == RejectReason::StructuralError,
{
    if encoded.len() != 160 {
        return Err(RejectReason::StructuralError);
    }
    if !zero_range(encoded, 32, 56) {
        return Err(RejectReason::StructuralError);
    }
    if !zero_range(encoded, 64, 88) {
        return Err(RejectReason::StructuralError);
    }
    if !zero_range(encoded, 96, 120) {
        return Err(RejectReason::StructuralError);
    }
    if !zero_range(encoded, 128, 152) {
        return Err(RejectReason::StructuralError);
    }
    let commitment: [u8; 32] = bytes_from_slice(slice_subrange(encoded, 0, 32));
    let from_asset = read_u64_be(slice_subrange(encoded, 56, 64));
    let to_asset = read_u64_be(slice_subrange(encoded, 88, 96));
    let from_amount = read_u64_be(slice_subrange(encoded, 120, 128));
    let min_to_amount = read_u64_be(slice_subrange(encoded, 152, 160));
    proof {
        lemma_u64_be_bytes_of_read(encoded@.subrange(56, 64));
        lemma_u64_be_bytes_of_read(encoded@.subrange(88, 96));
        lemma_u64_be_bytes_of_read(encoded@.subrange(120, 128));
        lemma_u64_be_bytes_of_read(encoded@.subrange(152, 160));
        assert(word_of_u64(from_asset) =~= encoded@.subrange(32, 64));
        assert(word_of_u64(to_asset) =~= encoded@.subrange(64, 96));
        assert(word_of_u64(from_amount) =~= encoded@.subrange(96, 128));
        assert(word_of_u64(min_to_amount) =~= encoded@.subrange(128, 160));
        assert(encoded@ =~= encoded@.subrange(0, 32) + encoded@.subrange(32, 64)
            + encoded@.subrange(64, 96) + encoded@.subrange(96, 128) + encoded@.subrange(
            128,
            160,
        ));
    }
    Ok(TradeProofPublicValues { commitment, from_asset, to_asset, from_amount, min_to_amount })
}

/// A trade encoding built from a 32-byte digest is well formed.
pub proof fn lemma_trade_encoding_well_formed(
    commitment: Seq<u8>,
    from_asset: u64,
    to_asset: u64,
    from_amount: u64,
    min_to_amount: u64,
)
    requires
        commitment.len() == 32,
    ensures
        is_trade_encoding(
            trade_encoding(commitment, from_asset, to_asset, from_amount, min_to_amount),
        ),
{
    let encoded = trade_encoding(commitment, from_asset, to_asset, from_amount, min_to_amount);
    assert(encoded.len() == 160);
    assert forall|i: int| 32 <= i < 56 implies encoded[i] == 0 by {
        assert(encoded[i] == word_of_u64(from_asset)[i - 32]);
    }
    assert forall|i: int| 64 <= i < 88 implies encoded[i] == 0 by {
        assert(encoded[i] == word_of_u64(to_asset)[i - 64]);
    }
    assert forall|i: int| 96 <= i < 120 implies encoded[i] == 0 by {
        assert(encoded[i] == word_of_u64(from_amount)[i - 96]);
    }
    assert forall|i: int| 128 <= i < 152 implies encoded[i] == 0 by {
        assert(encoded[i] == word_of_u64(min_to_amount)[i - 128]);
    }
}

/// No two distinct trade records share an encoding; with the encode and
/// decode contracts this says decoding an encoded record restores the
/// record.
pub proof fn lemma_trade_encoding_injective(
    commitment1: Seq<u8>,
    from_asset1: u64,
    to_asset1: u64,
    from_amount1: u64,
    min_to_amount1: u64,
    commitment2: Seq<u8>,
    from_asset2: u64,
    to_asset2: u64,
    from_amount2: u64,
    min_to_amount2: u64,
)
    requires
        commitment1.len() == 32,
        commitment2.len() == 32,
        trade_encoding(commitment1, from_asset1, to_asset1, from_amount1, min_to_amount1)
            == trade_encoding(commitment2, from_asset2, to_asset2, from_amount2, min_to_amount2),
    ensures
        commitment1 == commitment2,
        from_asset1 == from_asset2,
        to_asset1 == to_asset2,
        from_amount1 == from_amount2,
        min_to_amount1 == min_to_amount2,
{
    let encoded = trade_encoding(commitment1, from_asset1, to_asset1, from_amount1, min_to_amount1);
    assert(commitment1 =~= encoded.subrange(0, 32));
    assert(commitment2 =~= encoded.subrange(0, 32));
    assert(u64_be_bytes(from_asset1) =~= encoded.subrange(56, 64));
    assert(u64_be_bytes(from_asset2) =~= encoded.subrange(56, 64));
    assert(u64_be_bytes(to_asset1) =~= encoded.subrange(88, 96));
    assert(u64_be_bytes(to_asset2) =~= encoded.subrange(88, 96));
    assert(u64_be_bytes(from_amount1) =~= encoded.subrange(120, 128));
    assert(u64_be_bytes(from_amount2) =~= encoded.subrange(120, 128));
    assert(u64_be_bytes(min_to_amount1) =~= encoded.subrange(152, 160));
    assert(u64_be_bytes(min_to_amount2) =~= encoded.subrange(152, 160));
    lemma_u64_be_bytes_round_trip(from_asset1);
    lemma_u64_be_bytes_round_trip(from_asset2);
    lemma_u64_be_bytes_round_trip(to_asset1);
    lemma_u64_be_bytes_round_trip(to_asset2);
    lemma_u64_be_bytes_round_trip(from_amount1);
    lemma_u64_be_bytes_round_trip(from_amount2);
    lemma_u64_be_bytes_round_trip(min_to_amount1);
    lemma_u64_be_bytes_round_trip(min_to_amount2);
}

/// The compliance record's layout: commitment word, authority-address
/// word, expiry word, certificate-digest word.
pub open spec fn compliance_encoding(
    commitment: Seq<u8>,
    compliance_authority: Seq<u8>,
    valid_until: u64,
    certificate_hash: Seq<u8>,
) -> Seq<u8> {
    commitment + word_of_address(compliance_authority) + word_of_u64(valid_until)
        + certificate_hash
}

/// What a well-formed encoded compliance record looks like.
pub open spec fn is_compliance_encoding(encoded: Seq<u8>) -> bool {
    encoded.len() == 128 && address_word_at(encoded, 32) && u64_word_at(encoded, 64)
}

/// Encodes a compliance record.
pub fn encode_compliance(values: &ComplianceProofPublicValues) -> (encoded: Vec<u8>)
    ensures
        encoded@ == compliance_encoding(
            values.commitment@,
            values.compliance_authority@,
            values.valid_until,
            values.certificate_hash@,
        ),
{
    let mut encoded: Vec<u8> = Vec::new();
    push_bytes(&mut encoded, values.commitment.as_slice());
    push_address_word(&mut encoded, &values.compliance_authority);
    push_u64_word(&mut encoded, values.valid_until);
    push_bytes(&mut encoded, values.certificate_hash.as_slice());
    encoded
}

/// Decodes a compliance record; exactly the well-formed 128-byte encodings
/// decode, and the decoded record re-encodes to the same bytes.
pub fn decode_compliance(encoded: &[u8]) -> (decoded: Result<
    ComplianceProofPublicValues,
    RejectReason,
>)
    ensures
        decoded is Ok <==> is_compliance_encoding(encoded@),
        decoded matches Ok(values) ==> encoded@ == compliance_encoding(
            values.commitment@,
            values.compliance_authority@,
            values.valid_until,
            values.certificate_hash@,
        ),
        decoded matches Err(why) ==> why == RejectReason::StructuralError,
{
    if encoded.len() != 128 {
        return Err(RejectReason::StructuralError);
    }
    if !zero_range(encoded, 32, 44) {
        return Err(RejectReason::StructuralError);
    }
    if !zero_range(encoded, 64, 88) {
        return Err(RejectReason::StructuralError);
    }
    let commitment: [u8; 32] = bytes_from_slice(slice_subrange(encoded, 0, 32));
    let compliance_authority: [u8; 20] = bytes_from_slice(slice_subrange(encoded, 44, 64));
    let valid_until = read_u64_be(slice_subrange(encoded, 88, 96));
    let certificate_hash: [u8; 32] = bytes_from_slice(slice_subrange(encoded, 96, 128));
    proof {
        lemma_u64_be_bytes_of_read(encoded@.subrange(88, 96));
        assert(word_of_address(compliance_authority@) =~= encoded@.subrange(32, 64));
        assert(word_of_u64(valid_until) =~= encoded@.subrange(64, 96));
        assert(encoded@ =~= encoded@.subrange(0, 32) + encoded@.subrange(32, 64)
            + encoded@.subrange(64, 96) + encoded@.subrange(96, 128));
    }
    Ok(
        ComplianceProofPublicValues {
            commitment,
            compliance_authority,
            valid_until,
            certificate_hash,
        },
    )
}

/// A compliance encoding built from 32-byte digests and a 20-byte address
/// is well formed.
pub proof fn lemma_compliance_encoding_well_formed(
    commitment: Seq<u8>,
    compliance_authority: Seq<u8>,
    valid_until: u64,
    certificate_hash: Seq<u8>,
)
    requires
        commitment.len() == 32,
        compliance_authority.len() == 20,
        certificate_hash.len() == 32,
    ensures
        is_compliance_encoding(
            compliance_encoding(commitment, compliance_authority, valid_until, certificate_hash),
        ),
{
    let encoded = compliance_encoding(
        commitment,
        compliance_authority,
        valid_until,
        certificate_hash,
    );
    assert(encoded.len() == 128);
    assert forall|i: int| 32 <= i < 44 implies encoded[i] == 0 by {
        assert(encoded[i] == word_of_address(compliance_authority)[i - 32]);
    }
    assert forall|i: int| 64 <= i < 88 implies encoded[i] == 0 by {
        assert(encoded[i] == word_of_u64(valid_until)[i - 64]);
    }
}

/// No two distinct compliance records share an encoding; with the encode
/// and decode contracts this says decoding an encoded record restores the
/// record.
pub proof fn lemma_compliance_encoding_injective(
    commitment1: Seq<u8>,
    compliance_authority1: Seq<u8>,
    valid_until1: u64,
    certificate_hash1: Seq<u8>,
    commitment2: Seq<u8>,
    compliance_authority2: Seq<u8>,
    valid_until2: u64,
    certificate_hash2: Seq<u8>,
)
    requires
        commitment1.len() == 32,
        compliance_authority1.len() == 20,
        certificate_hash1.len() == 32,
        commitment2.len() == 32,
        compliance_authority2.len() == 20,
        certificate_hash2.len() == 32,
        compliance_encoding(commitment1, compliance_authority1, valid_until1, certificate_hash1)
            == compliance_encoding(
            commitment2,
            compliance_authority2,
            valid_until2,
            certificate_hash2,
        ),
    ensures
        commitment1 == commitment2,
        compliance_authority1 == compliance_authority2,
        valid_until1 == valid_until2,
        certificate_hash1 == certificate_hash2,
{
    let encoded = compliance_encoding(
        commitment1,
        compliance_authority1,
        valid_until1,
        certificate_hash1,
    );
    assert(commitment1 =~= encoded.subrange(0, 32));
    assert(commitment2 =~= encoded.subrange(0, 32));
    assert(compliance_authority1 =~= encoded.subrange(44, 64));
    assert(compliance_authority2 =~= encoded.subrange(44, 64));
    assert(u64_be_bytes(valid_until1) =~= encoded.subrange(88, 96));
    assert(u64_be_bytes(valid_until2) =~= encoded.subrange(88, 96));
    assert(certificate_hash1 =~= encoded.subrange(96, 128));
    assert(certificate_hash2 =~= encoded.subrange(96, 128));
    lemma_u64_be_bytes_round_trip(valid_until1);
    lemma_u64_be_bytes_round_trip(valid_until2);
}

/// The innocence record's layout: depositor-address word, sanctions-root
/// word, timestamp word, innocence-flag word.
pub open spec fn innocence_encoding(
    depositor: Seq<u8>,
    sanctions_root: Seq<u8>,
    timestamp: u64,
    is_innocent: bool,
) -> Seq<u8> {
    word_of_address(depositor) + sanctions_root + word_of_u64(timestamp) + word_of_bool(
        is_innocent,
    )
}

/// What a well-formed encoded innocence record looks like.
pub open spec fn is_innocence_encoding(encoded: Seq<u8>) -> bool {
    encoded.len() == 128 && address_word_at(encoded, 0) && u64_word_at(encoded, 64)
        && bool_word_at(encoded, 96)
}

/// Encodes an innocence record.
pub fn encode_innocence(values: &InnocenceProofPublicValues) -> (encoded: Vec<u8>)
    ensures
        encoded@ == innocence_encoding(
            values.depositor@,
            values.sanctions_root@,
            values.timestamp,
            values.is_innocent,
        ),
{
    let mut encoded: Vec<u8> = Vec::new();
    push_address_word(&mut encoded, &values.depositor);
    push_bytes(&mut encoded, values.sanctions_root.as_slice());
    push_u64_word(&mut encoded, values.timestamp);
    push_bool_word(&mut encoded, values.is_innocent);
    encoded
}

/// Decodes an innocence record; exactly the well-formed 128-byte encodings
/// decode, and the decoded record re-encodes to the same bytes.
pub fn decode_innocence(encoded: &[u8]) -> (decoded: Result<
    InnocenceProofPublicValues,
    RejectReason,
>)
    ensures
        decoded is Ok <==> is_innocence_encoding(encoded@),
        decoded matches Ok(values) ==> encoded@ == innocence_encoding(
            values.depositor@,
            values.sanctions_root@,
            values.timestamp,
            values.is_innocent,
        ),
        decoded matches Err(why) ==> why == RejectReason::StructuralError,
{
    if encoded.len() != 128 {
        return Err(RejectReason::StructuralError);
    }
    if !zero_range(encoded, 0, 12) {
        return Err(RejectReason::StructuralError);
    }
    if !zero_range(encoded, 64, 88) {
        return Err(RejectReason::StructuralError);
    }
    if !zero_range(encoded, 96, 127) {
        return Err(RejectReason::StructuralError);
    }
    let flag_byte = encoded[127];
    if flag_byte != 0 && flag_byte != 1 {
        return Err(RejectReason::StructuralError);
    }
    let is_innocent = flag_byte == 1;
    let depositor: [u8; 20] = bytes_from_slice(slice_subrange(encoded, 12, 32));
    let sanctions_root: [u8; 32] = bytes_from_slice(slice_subrange(encoded, 32, 64));
    let timestamp = read_u64_be(slice_subrange(encoded, 88, 96));
    proof {
        lemma_u64_be_bytes_of_read(encoded@.subrange(88, 96));
        assert(word_of_address(depositor@) =~= encoded@.subrange(0, 32));
        assert(word_of_u64(timestamp) =~= encoded@.subrange(64, 96));
        assert(word_of_bool(is_innocent) =~= encoded@.subrange(96, 128));
        assert(encoded@ =~= encoded@.subrange(0, 32) + encoded@.subrange(32, 64)
            + encoded@.subrange(64, 96) + encoded@.subrange(96, 128));
    }
    Ok(InnocenceProofPublicValues { depositor, sanctions_root, timestamp, is_innocent })
}

/// An innocence encoding built from a 20-byte address and a 32-byte root
/// is well formed.
pub proof fn lemma_innocence_encoding_well_formed(
    depositor: Seq<u8>,
    sanctions_root: Seq<u8>,
    timestamp: u64,
    is_innocent: bool,
)
    requires
        depositor.len() == 20,
        sanctions_root.len() == 32,
    ensures
        is_innocence_encoding(
            innocence_encoding(depositor, sanctions_root, timestamp, is_innocent),
        ),
{
    let encoded = innocence_encoding(depositor, sanctions_root, timestamp, is_innocent);
    assert(encoded.len() == 128);
    assert forall|i: int| 0 <= i < 12 implies encoded[i] == 0 by {
        assert(encoded[i] == word_of_address(depositor)[i]);
    }
    assert forall|i: int| 64 <= i < 88 implies encoded[i] == 0 by {
        assert(encoded[i] == word_of_u64(timestamp)[i - 64]);
    }
    assert forall|i: int| 96 <= i < 127 implies encoded[i] == 0 by {
        assert(encoded[i] == word_of_bool(is_innocent)[i - 96]);
    }
    assert(encoded[127] == word_of_bool(is_innocent)[31]);
}

/// No two distinct innocence records share an encoding; with the encode
/// and decode contracts this says decoding an encoded record restores the
/// record.
pub proof fn lemma_innocence_encoding_injective(
    depositor1: Seq<u8>,
    sanctions_root1: Seq<u8>,
    timestamp1: u64,
    is_innocent1: bool,
    depositor2: Seq<u8>,
    sanctions_root2: Seq<u8>,
    timestamp2: u64,
    is_innocent2: bool,
)
    requires
        depositor1.len() == 20,
        sanctions_root1.len() == 32,
        depositor2.len() == 20,
        sanctions_root2.len() == 32,
        innocence_encoding(depositor1, sanctions_root1, timestamp1, is_innocent1)
            == innocence_encoding(depositor2, sanctions_root2, timestamp2, is_innocent2),
    ensures
        depositor1 == depositor2,
        sanctions_root1 == sanctions_root2,
        timestamp1 == timestamp2,
        is_innocent1 == is_innocent2,
{
    let encoded = innocence_encoding(depositor1, sanctions_root1, timestamp1, is_innocent1);
    assert(depositor1 =~= encoded.subrange(12, 32));
    assert(depositor2 =~= encoded.subrange(12, 32));
    assert(sanctions_root1 =~= encoded.subrange(32, 64));
    assert(sanctions_root2 =~= encoded.subrange(32, 64));
    assert(u64_be_bytes(timestamp1) =~= encoded.subrange(88, 96));
    assert(u64_be_bytes(timestamp2) =~= encoded.subrange(88, 96));
    lemma_u64_be_bytes_round_trip(timestamp1);
    lemma_u64_be_bytes_round_trip(timestamp2);
    assert(word_of_bool(is_innocent1)[31] == encoded[127]);
    assert(word_of_bool(is_innocent2)[31] == encoded[127]);
}

} // verus!
