use vstd::prelude::*;

verus! {

/// Why a split payment was rejected. Every rejection leaves all state unchanged.
#[derive(Debug, Clone, Copy, PartialEq, Eq, Structural)]
pub enum PaymentError {
    /// The payment amount is zero.
    InvalidAmount,
    /// The payer's token account holds less than the amount.
    InsufficientBalance,
    /// A token account is not owned by the identity it must belong to.
    InvalidTokenAccount,
    /// A token account holds another token than the designated one.
    InvalidMint,
    /// The fee or the producer's share cannot be represented safely.
    CalculationOverflow,
}

impl PaymentError {
    /// The message that accompanies the error when it is reported.
    pub fn message(&self) -> (r: &'static str) {
        match self {
            PaymentError::InvalidAmount => "Invalid payment amount - must be greater than 0",
            PaymentError::InsufficientBalance => "Insufficient balance for payment",
            PaymentError::InvalidTokenAccount => "Invalid token account",
            PaymentError::InvalidMint => "Invalid mint address",
            PaymentError::CalculationOverflow => "Calculation overflow",
        }
    }
}

} // verus!
