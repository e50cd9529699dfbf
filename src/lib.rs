//! Splits one payment of a fungible token between a platform, which takes a
//! fixed ratio in basis points, and a producer, which receives the rest.
//!
//! Every check is made before anything moves: the processor decides a payment
//! from the accounts it is handed and returns either an error, which calls for
//! no transfer, or the shares and the transfers that carry them out.

pub mod accounts;
pub mod errors;
pub mod payment_splitter;
pub mod split;

pub use accounts::{
    Identity, InitializePlatform, PaymentProcessed, PlatformConfig, ProcessSplitPayment,
    TokenAccount,
};
pub use errors::PaymentError;
pub use payment_splitter::{
    initialize_platform, payment_event, process_split_payment, Beneficiary, PaymentSplit,
    TokenTransfer, DEFAULT_FEE_BASIS_POINTS,
};
pub use split::{calculate_split, BASIS_POINTS_DENOMINATOR};
