use innocence_circuits::commitment::compute_commitment;
use innocence_circuits::reject::RejectReason;
use innocence_circuits::trade::{evaluate_trade, TradeClaim, TradeWitness};

fn witness_and_claim(
    from_balance: u64,
    from_asset: u64,
    to_asset: u64,
    from_amount: u64,
    min_to_amount: u64,
) -> (TradeWitness, TradeClaim) {
    let secret = [0x01u8; 32];
    let nullifier = [0x02u8; 32];
    let commitment = compute_commitment(&secret, &nullifier);
    let witness = TradeWitness {
        secret,
        nullifier,
        from_balance,
        to_balance: 0,
    };
    let claim = TradeClaim {
        commitment,
        from_asset,
        to_asset,
        from_amount,
        min_to_amount,
    };
    (witness, claim)
}

#[test]
fn exact_spend_accepts() {
    let (witness, claim) = witness_and_claim(100, 0, 1, 100, 5);
    let accepted = evaluate_trade(&witness, &claim).expect("spending the whole balance is valid");
    assert_eq!(accepted.commitment, claim.commitment);
    assert_eq!(accepted.from_asset, 0);
    assert_eq!(accepted.to_asset, 1);
    assert_eq!(accepted.from_amount, 100);
    assert_eq!(accepted.min_to_amount, 5);
}

#[test]
fn overspend_rejects() {
    let (witness, claim) = witness_and_claim(99, 0, 1, 100, 5);
    assert_eq!(
        evaluate_trade(&witness, &claim),
        Err(RejectReason::ConstraintViolation)
    );
}

#[test]
fn same_asset_rejects_regardless_of_amounts() {
    for (balance, amount, min_to) in [(100u64, 10u64, 5u64), (1000, 1, 1), (5, 5, 100)] {
        let (witness, claim) = witness_and_claim(balance, 0, 0, amount, min_to);
        assert_eq!(
            evaluate_trade(&witness, &claim),
            Err(RejectReason::ConstraintViolation)
        );
    }
}

#[test]
fn zero_spend_amount_rejects() {
    let (witness, claim) = witness_and_claim(100, 0, 1, 0, 5);
    assert_eq!(
        evaluate_trade(&witness, &claim),
        Err(RejectReason::ConstraintViolation)
    );
}

#[test]
fn zero_minimum_received_rejects() {
    let (witness, claim) = witness_and_claim(100, 0, 1, 10, 0);
    assert_eq!(
        evaluate_trade(&witness, &claim),
        Err(RejectReason::ConstraintViolation)
    );
}

#[test]
fn trade_wrong_commitment_rejects() {
    let (witness, mut claim) = witness_and_claim(100, 0, 1, 10, 5);
    claim.commitment[31] ^= 0x01;
    assert_eq!(
        evaluate_trade(&witness, &claim),
        Err(RejectReason::WitnessMismatch)
    );
}
