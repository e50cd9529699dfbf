use vstd::prelude::*;

use crate::errors::PaymentError;

verus! {

/// The denominator of a fee ratio: 10000 basis points make the whole payment.
pub const BASIS_POINTS_DENOMINATOR: u64 = 10000;

/// The platform's share of `amount` at `fee_basis_points`, rounded down.
pub open spec fn platform_fee_of(amount: int, fee_basis_points: int) -> int {
    amount * fee_basis_points / 10000
}

/// A fee ratio is valid when it is at most the whole payment.
pub open spec fn valid_fee_ratio(fee_basis_points: int) -> bool {
    0 <= fee_basis_points <= 10000
}

/// The outcome of splitting `amount` at `fee_basis_points`: the platform fee and
/// the producer's share, or `CalculationOverflow` when the fee would exceed the
/// amount (which only a ratio above the whole payment can cause).
pub open spec fn split_of(amount: u64, fee_basis_points: u16) -> Result<(u64, u64), PaymentError> {
    let fee = platform_fee_of(amount as int, fee_basis_points as int);
    if fee <= amount {
        Ok((fee as u64, (amount - fee) as u64))
    } else {
        Err(PaymentError::CalculationOverflow)
    }
}

/// The platform fee never exceeds the payment when the ratio is valid.
pub proof fn lemma_fee_bounded(amount: nat, fee_basis_points: nat)
    requires
        valid_fee_ratio(fee_basis_points as int),
    ensures
        0 <= platform_fee_of(amount as int, fee_basis_points as int) <= amount,
{
    assert(amount * fee_basis_points <= amount * 10000) by (nonlinear_arith)
        requires
            fee_basis_points <= 10000,
    ;
    assert(0 <= amount * fee_basis_points) by (nonlinear_arith);
}

/// Splits `amount` into the platform fee and the producer's share.
///
/// The fee is computed in 128 bits, so the product of the amount and the ratio
/// never overflows; it is narrowed back to 64 bits only after the division, and
/// the producer's share is a checked subtraction. A ratio above the whole
/// payment can make the fee larger than the amount: that is reported as
/// `CalculationOverflow`.
pub fn calculate_split(amount: u64, fee_basis_points: u16) -> (r: Result<(u64, u64), PaymentError>)
    ensures
        r == split_of(amount, fee_basis_points),
        valid_fee_ratio(fee_basis_points as int) ==> r is Ok,
{
    proof {
        assert(0 <= amount as int * fee_basis_points as int <= u64::MAX as int * u16::MAX as int)
            by (nonlinear_arith);
    }
    let product = match (amount as u128).checked_mul(fee_basis_points as u128) {
        Some(p) => p,
        None => return Err(PaymentError::CalculationOverflow),
    };
    let wide_fee = match product.checked_div(BASIS_POINTS_DENOMINATOR as u128) {
        Some(f) => f,
        None => return Err(PaymentError::CalculationOverflow),
    };
    proof {
        if valid_fee_ratio(fee_basis_points as int) {
            lemma_fee_bounded(amount as nat, fee_basis_points as nat);
        }
    }
    if wide_fee > u64::MAX as u128 {
        return Err(PaymentError::CalculationOverflow);
    }
    let platform_fee = wide_fee as u64;
    let producer_amount = match amount.checked_sub(platform_fee) {
        Some(p) => p,
        None => return Err(PaymentError::CalculationOverflow),
    };
    Ok((platform_fee, producer_amount))
}

/// No value is created or destroyed by a split: for every amount and every
/// valid fee ratio, the split succeeds and the platform fee and the producer's
/// share add up to the amount exactly.
pub proof fn lemma_split_conserves_amount(amount: u64, fee_basis_points: u16)
    requires
        valid_fee_ratio(fee_basis_points as int),
    ensures
        match split_of(amount, fee_basis_points) {
            Ok((platform_fee, producer_amount)) => platform_fee + producer_amount == amount,
            Err(_) => false,
        },
{
    lemma_fee_bounded(amount as nat, fee_basis_points as nat);
}

/// For every amount and every valid fee ratio, the platform fee is the amount
/// times the ratio divided by 10000, rounded down.
pub proof fn lemma_platform_fee_is_floor(amount: u64, fee_basis_points: u16)
    requires
        valid_fee_ratio(fee_basis_points as int),
    ensures
        match split_of(amount, fee_basis_points) {
            Ok((platform_fee, _)) => {
                &&& platform_fee * 10000 <= amount * fee_basis_points
                &&& amount * fee_basis_points < (platform_fee + 1) * 10000
            },
            Err(_) => false,
        },
{
    lemma_fee_bounded(amount as nat, fee_basis_points as nat);
    let p = amount as int * fee_basis_points as int;
    assert(0 <= p) by (nonlinear_arith)
        requires
            p == amount as int * fee_basis_points as int,
    ;
    assert((p / 10000) * 10000 <= p < (p / 10000 + 1) * 10000) by (nonlinear_arith)
        requires
            0 <= p,
    ;
}

} // verus!
