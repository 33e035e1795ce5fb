use innocence_circuits::balance::BalanceProofPublicValues;
use innocence_circuits::codec::{
    decode_balance, decode_compliance, decode_innocence, decode_ownership, decode_trade,
    encode_balance, encode_compliance, encode_innocence, encode_ownership, encode_trade,
};
use innocence_circuits::compliance::ComplianceProofPublicValues;
use innocence_circuits::innocence::InnocenceProofPublicValues;
use innocence_circuits::ownership::OwnershipProofPublicValues;
use innocence_circuits::reject::RejectReason;
use innocence_circuits::trade::TradeProofPublicValues;

fn u64_word(value: u64) -> Vec<u8> {
    let mut word = vec![0u8; 24];
    word.extend_from_slice(&value.to_be_bytes());
    word
}

fn address_word(address: &[u8; 20]) -> Vec<u8> {
    let mut word = vec![0u8; 12];
    word.extend_from_slice(address);
    word
}

fn bool_word(flag: bool) -> Vec<u8> {
    let mut word = vec![0u8; 31];
    word.push(if flag { 1 } else { 0 });
    word
}

#[test]
fn ownership_layout_and_round_trip() {
    let values = OwnershipProofPublicValues {
        commitment: [0x11u8; 32],
        nullifier_hash: [0x22u8; 32],
    };
    let encoded = encode_ownership(&values);
    let mut expected = Vec::new();
    expected.extend_from_slice(&values.commitment);
    expected.extend_from_slice(&values.nullifier_hash);
    assert_eq!(encoded, expected);
    assert_eq!(decode_ownership(&encoded), Ok(values));
}

#[test]
fn balance_layout_and_round_trip() {
    let values = BalanceProofPublicValues {
        commitment: [0x11u8; 32],
        merkle_root: [0x22u8; 32],
        min_balance: 100,
        asset_id: 3,
    };
    let encoded = encode_balance(&values);
    let mut expected = Vec::new();
    expected.extend_from_slice(&values.commitment);
    expected.extend_from_slice(&values.merkle_root);
    expected.extend_from_slice(&u64_word(100));
    expected.extend_from_slice(&u64_word(3));
    assert_eq!(encoded, expected);
    assert_eq!(decode_balance(&encoded), Ok(values));
}

#[test]
fn trade_layout_and_round_trip() {
    let values = TradeProofPublicValues {
        commitment: [0x77u8; 32],
        from_asset: 0,
        to_asset: 1,
        from_amount: 100,
        min_to_amount: u64::MAX,
    };
    let encoded = encode_trade(&values);
    let mut expected = Vec::new();
    expected.extend_from_slice(&values.commitment);
    expected.extend_from_slice(&u64_word(0));
    expected.extend_from_slice(&u64_word(1));
    expected.extend_from_slice(&u64_word(100));
    expected.extend_from_slice(&u64_word(u64::MAX));
    assert_eq!(encoded, expected);
    assert_eq!(decode_trade(&encoded), Ok(values));
}

#[test]
fn compliance_layout_and_round_trip() {
    let values = ComplianceProofPublicValues {
        commitment: [0x11u8; 32],
        compliance_authority: [0x5Bu8; 20],
        valid_until: 2_000_000,
        certificate_hash: [0x99u8; 32],
    };
    let encoded = encode_compliance(&values);
    let mut expected = Vec::new();
    expected.extend_from_slice(&values.commitment);
    expected.extend_from_slice(&address_word(&values.compliance_authority));
    expected.extend_from_slice(&u64_word(2_000_000));
    expected.extend_from_slice(&values.certificate_hash);
    assert_eq!(encoded, expected);
    assert_eq!(decode_compliance(&encoded), Ok(values));
}

#[test]
fn innocence_layout_and_round_trip() {
    for flag in [false, true] {
        let values = InnocenceProofPublicValues {
            depositor: [0xA0u8; 20],
            sanctions_root: [0x0Bu8; 32],
            timestamp: 1_700_000_000,
            is_innocent: flag,
        };
        let encoded = encode_innocence(&values);
        let mut expected = Vec::new();
        expected.extend_from_slice(&address_word(&values.depositor));
        expected.extend_from_slice(&values.sanctions_root);
        expected.extend_from_slice(&u64_word(1_700_000_000));
        expected.extend_from_slice(&bool_word(flag));
        assert_eq!(encoded, expected);
        assert_eq!(decode_innocence(&encoded), Ok(values));
    }
}

#[test]
fn truncated_records_fail_with_a_structural_error() {
    let ownership = encode_ownership(&OwnershipProofPublicValues {
        commitment: [1; 32],
        nullifier_hash: [2; 32],
    });
    assert_eq!(
        decode_ownership(&ownership[..63]),
        Err(RejectReason::StructuralError)
    );
    let balance = encode_balance(&BalanceProofPublicValues {
        commitment: [1; 32],
        merkle_root: [2; 32],
        min_balance: 5,
        asset_id: 6,
    });
    assert_eq!(
        decode_balance(&balance[..127]),
        Err(RejectReason::StructuralError)
    );
    let trade = encode_trade(&TradeProofPublicValues {
        commitment: [1; 32],
        from_asset: 0,
        to_asset: 1,
        from_amount: 2,
        min_to_amount: 3,
    });
    assert_eq!(
        decode_trade(&trade[..159]),
        Err(RejectReason::StructuralError)
    );
    let compliance = encode_compliance(&ComplianceProofPublicValues {
        commitment: [1; 32],
        compliance_authority: [2; 20],
        valid_until: 3,
        certificate_hash: [4; 32],
    });
    assert_eq!(
        decode_compliance(&compliance[..100]),
        Err(RejectReason::StructuralError)
    );
    let innocence = encode_innocence(&InnocenceProofPublicValues {
        depositor: [1; 20],
        sanctions_root: [2; 32],
        timestamp: 3,
        is_innocent: true,
    });
    assert_eq!(
        decode_innocence(&innocence[..0]),
        Err(RejectReason::StructuralError)
    );
}

#[test]
fn oversize_records_fail_with_a_structural_error() {
    let mut encoded = encode_ownership(&OwnershipProofPublicValues {
        commitment: [1; 32],
        nullifier_hash: [2; 32],
    });
    encoded.push(0);
    assert_eq!(decode_ownership(&encoded), Err(RejectReason::StructuralError));
}

#[test]
fn non_canonical_padding_fails_with_a_structural_error() {
    let mut encoded = encode_balance(&BalanceProofPublicValues {
        commitment: [1; 32],
        merkle_root: [2; 32],
        min_balance: 5,
        asset_id: 6,
    });
    encoded[64] = 1;
    assert_eq!(decode_balance(&encoded), Err(RejectReason::StructuralError));

    let mut encoded = encode_compliance(&ComplianceProofPublicValues {
        commitment: [1; 32],
        compliance_authority: [2; 20],
        valid_until: 3,
        certificate_hash: [4; 32],
    });
    encoded[32] = 1;
    assert_eq!(
        decode_compliance(&encoded),
        Err(RejectReason::StructuralError)
    );
}

#[test]
fn a_boolean_word_beyond_one_fails_with_a_structural_error() {
    let mut encoded = encode_innocence(&InnocenceProofPublicValues {
        depositor: [1; 20],
        sanctions_root: [2; 32],
        timestamp: 3,
        is_innocent: true,
    });
    encoded[127] = 2;
    assert_eq!(
        decode_innocence(&encoded),
        Err(RejectReason::StructuralError)
    );
}
