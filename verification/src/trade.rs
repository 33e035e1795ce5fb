//! The trade statement: the prover can fund a trade with valid parameters
//! without revealing balances.

use vstd::prelude::*;

use crate::byteutil::bytes_eq;
use crate::commitment::{commitment_of, compute_commitment};
use crate::reject::RejectReason;

verus! {

/// Private inputs to the trade statement.
#[derive(Clone, Copy, Debug)]
pub struct TradeWitness {
    pub secret: [u8; 32],
    pub nullifier: [u8; 32],
    pub from_balance: u64,
    pub to_balance: u64,
}

/// Public inputs to the trade statement.
#[derive(Clone, Copy, Debug)]
pub struct TradeClaim {
    pub commitment: [u8; 32],
    pub from_asset: u64,
    pub to_asset: u64,
    pub from_amount: u64,
    pub min_to_amount: u64,
}

/// The public record an accepted trade statement commits to.
#[derive(Clone, Copy, Debug, PartialEq, Eq)]
pub struct TradeProofPublicValues {
    pub commitment: [u8; 32],
    pub from_asset: u64,
    pub to_asset: u64,
    pub from_amount: u64,
    pub min_to_amount: u64,
}

/// The checks of the trade statement, in evaluation order; the first
/// failing check decides the reject reason.  The spent balance
/// `from_balance - from_amount` cannot underflow once the sufficiency check
/// has passed, so no later check can fail.
pub open spec fn trade_verdict(witness: TradeWitness, claim: TradeClaim) -> Result<
    (),
    RejectReason,
> {
    if commitment_of(witness.secret@, witness.nullifier@) != claim.commitment@ {
        Err(RejectReason::WitnessMismatch)
    } else if witness.from_balance < claim.from_amount {
        Err(RejectReason::ConstraintViolation)
    } else if claim.from_amount == 0 {
        Err(RejectReason::ConstraintViolation)
    } else if claim.min_to_amount == 0 {
        Err(RejectReason::ConstraintViolation)
    } else if claim.from_asset == claim.to_asset {
        Err(RejectReason::ConstraintViolation)
    } else {
        Ok(())
    }
}

/// Evaluates the trade statement: the recomputed commitment must match, the
/// source balance must cover the spent amount (spending the whole balance
/// is allowed), both amounts must be positive, and the two assets must
/// differ.  Subtracting the spent amount is checked and would reject on
/// underflow rather than wrap.
pub fn evaluate_trade(witness: &TradeWitness, claim: &TradeClaim) -> (outcome: Result<
    TradeProofPublicValues,
    RejectReason,
>)
    ensures
        outcome is Ok <==> trade_verdict(*witness, *claim) is Ok,
        outcome matches Err(why) ==> trade_verdict(*witness, *claim) == Err::<(), RejectReason>(
            why,
        ),
        outcome matches Ok(out) ==> out.commitment@ == claim.commitment@ && out.from_asset
            == claim.from_asset && out.to_asset == claim.to_asset && out.from_amount
            == claim.from_amount && out.min_to_amount == claim.min_to_amount,
{
    let computed = compute_commitment(&witness.secret, &witness.nullifier);
    if !bytes_eq(&computed, &claim.commitment) {
        return Err(RejectReason::WitnessMismatch);
    }
    if witness.from_balance < claim.from_amount {
        return Err(RejectReason::ConstraintViolation);
    }
    if claim.from_amount == 0 {
        return Err(RejectReason::ConstraintViolation);
    }
    if claim.min_to_amount == 0 {
        return Err(RejectReason::ConstraintViolation);
    }
    if claim.from_asset == claim.to_asset {
        return Err(RejectReason::ConstraintViolation);
    }
    match witness.from_balance.checked_sub(claim.from_amount) {
        Some(_remaining) => {},
        None => {
            return Err(RejectReason::ConstraintViolation);
        },
    }
    Ok(
        TradeProofPublicValues {
            commitment: claim.commitment,
            from_asset: claim.from_asset,
            to_asset: claim.to_asset,
            from_amount: claim.from_amount,
            min_to_amount: claim.min_to_amount,
        },
    )
}

} // verus!
