use vstd::prelude::*;

use crate::split::valid_fee_ratio;

verus! {

/// An opaque 32-byte identity: an account owner, a token type, or a participant.
#[derive(Debug, Clone, Copy)]
pub struct Identity {
    pub bytes: [u8; 32],
}

impl View for Identity {
    type V = Seq<u8>;

    open spec fn view(&self) -> Seq<u8> {
        self.bytes@
    }
}

impl Identity {
    /// The identity made of the given bytes.
    pub fn new(bytes: [u8; 32]) -> (r: Identity)
        ensures
            r.bytes == bytes,
    {
        Identity { bytes }
    }
}

impl PartialEq for Identity {
    fn eq(&self, other: &Identity) -> (r: bool) {
        let mut i: usize = 0;
        while i < 32
            invariant
                0 <= i <= 32,
                self@.len() == 32,
                other@.len() == 32,
                forall|j: int| 0 <= j < i ==> self@[j] == other@[j],
            decreases 32 - i,
        {
            if self.bytes[i] != other.bytes[i] {
                return false;
            }
            i = i + 1;
        }
        proof {
            assert(self@ =~= other@);
        }
        true
    }
}

impl vstd::std_specs::cmp::PartialEqSpecImpl for Identity {
    open spec fn obeys_eq_spec() -> bool {
        true
    }

    open spec fn eq_spec(&self, other: &Identity) -> bool {
        self@ == other@
    }
}

impl Eq for Identity {
}

/// A balance of one token type, held for one owner.
#[derive(Debug, Clone, Copy)]
pub struct TokenAccount {
    /// The identity that owns the account.
    pub owner: Identity,
    /// The token type the account holds.
    pub mint: Identity,
    /// The balance, in the token's smallest unit.
    pub amount: u64,
}

/// The deployment's single configuration record.
#[derive(Debug, Clone, Copy)]
pub struct PlatformConfig {
    /// The owner of the account that receives the platform's share.
    pub platform_wallet: Identity,
    /// The platform's share of each payment, in basis points (10000 is the whole payment).
    pub platform_fee_basis_points: u16,
    /// The identity that created the record.
    pub authority: Identity,
}

impl PlatformConfig {
    /// The fee ratio is at most the whole payment.
    pub open spec fn wf(&self) -> bool {
        valid_fee_ratio(self.platform_fee_basis_points as int)
    }
}

/// What the configuration initializer is handed: the identity that creates the record.
#[derive(Debug, Clone, Copy)]
pub struct InitializePlatform {
    pub authority: Identity,
}

/// What the split payment processor is handed: the configuration, the payer
/// (who authorizes the debits), the producer, the three token accounts, and the
/// designated token type.
#[derive(Debug, Clone, Copy)]
pub struct ProcessSplitPayment {
    pub platform_config: PlatformConfig,
    pub payer: Identity,
    pub producer: Identity,
    pub payer_token_account: TokenAccount,
    pub producer_token_account: TokenAccount,
    pub platform_token_account: TokenAccount,
    pub usdc_mint: Identity,
}

/// The audit record of one completed split.
#[derive(Debug, Clone, Copy)]
pub struct PaymentProcessed {
    pub payer: Identity,
    pub producer: Identity,
    pub total_amount: u64,
    pub platform_fee: u64,
    pub producer_amount: u64,
    pub timestamp: i64,
}

} // verus!
