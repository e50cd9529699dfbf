use vstd::prelude::*;

use crate::accounts::{
    Identity, InitializePlatform, PaymentProcessed, PlatformConfig, ProcessSplitPayment,
    TokenAccount,
};
use crate::errors::PaymentError;
use crate::split::{calculate_split, lemma_split_conserves_amount, split_of};

verus! {

/// The fee ratio a new configuration starts with: 20% of each payment.
pub const DEFAULT_FEE_BASIS_POINTS: u16 = 2000;

/// The account a transfer credits. Every transfer debits the payer's token
/// account and is authorized by the payer.
#[derive(Debug, Clone, Copy, PartialEq, Eq, Structural)]
pub enum Beneficiary {
    Platform,
    Producer,
}

/// One transfer of `amount` from the payer's token account to a beneficiary's.
#[derive(Debug, Clone, Copy, PartialEq, Eq, Structural)]
pub struct TokenTransfer {
    pub to: Beneficiary,
    pub amount: u64,
}

/// An accepted payment: the two shares, and the transfers that carry them out,
/// in the order in which they are to be made.
#[derive(Debug)]
pub struct PaymentSplit {
    pub total_amount: u64,
    pub platform_fee: u64,
    pub producer_amount: u64,
    pub transfers: Vec<TokenTransfer>,
}

/// The error for a token account that must be owned by `owner` and hold `mint`,
/// if it does not; a wrong owner is reported before a wrong token type.
pub open spec fn token_account_error(
    account: TokenAccount,
    owner: Identity,
    mint: Identity,
) -> Option<PaymentError> {
    if account.owner@ != owner@ {
        Some(PaymentError::InvalidTokenAccount)
    } else if account.mint@ != mint@ {
        Some(PaymentError::InvalidMint)
    } else {
        None
    }
}

/// The first error among the three token accounts, checked in the order payer,
/// producer, platform.
pub open spec fn accounts_error(ctx: ProcessSplitPayment) -> Option<PaymentError> {
    let payer = token_account_error(ctx.payer_token_account, ctx.payer, ctx.usdc_mint);
    let producer = token_account_error(ctx.producer_token_account, ctx.producer, ctx.usdc_mint);
    let platform = token_account_error(
        ctx.platform_token_account,
        ctx.platform_config.platform_wallet,
        ctx.usdc_mint,
    );
    if payer is Some {
        payer
    } else if producer is Some {
        producer
    } else {
        platform
    }
}

/// Every token account is owned by the identity it must belong to and holds the
/// designated token type.
pub open spec fn accounts_valid(ctx: ProcessSplitPayment) -> bool {
    accounts_error(ctx) is None
}

/// The outcome of a payment of `amount`: the platform fee and the producer's
/// share, or the first check that rejects it. The accounts are checked first,
/// then the amount, then the arithmetic, then the payer's balance.
pub open spec fn payment_outcome(ctx: ProcessSplitPayment, amount: u64) -> Result<
    (u64, u64),
    PaymentError,
> {
    if accounts_error(ctx) is Some {
        Err(accounts_error(ctx)->0)
    } else if amount == 0 {
        Err(PaymentError::InvalidAmount)
    } else {
        match split_of(amount, ctx.platform_config.platform_fee_basis_points) {
            Err(e) => Err(e),
            Ok(shares) => if ctx.payer_token_account.amount < amount {
                Err(PaymentError::InsufficientBalance)
            } else {
                Ok(shares)
            },
        }
    }
}

/// The transfers that carry out a split: the platform's share, then the
/// producer's, each left out when it is zero.
pub open spec fn transfers_of(platform_fee: u64, producer_amount: u64) -> Seq<TokenTransfer> {
    let platform = if platform_fee > 0 {
        seq![TokenTransfer { to: Beneficiary::Platform, amount: platform_fee }]
    } else {
        Seq::empty()
    };
    let producer = if producer_amount > 0 {
        seq![TokenTransfer { to: Beneficiary::Producer, amount: producer_amount }]
    } else {
        Seq::empty()
    };
    platform + producer
}

/// The transfers a payment of `amount` calls for: those of its split when it is
/// accepted, none when it is rejected.
pub open spec fn planned_transfers(ctx: ProcessSplitPayment, amount: u64) -> Seq<TokenTransfer> {
    match payment_outcome(ctx, amount) {
        Ok((platform_fee, producer_amount)) => transfers_of(platform_fee, producer_amount),
        Err(_) => Seq::empty(),
    }
}

/// The total that `transfers` move to `to`.
pub open spec fn amount_to(transfers: Seq<TokenTransfer>, to: Beneficiary) -> int
    decreases transfers.len(),
{
    if transfers.len() == 0 {
        0
    } else {
        let rest = amount_to(transfers.drop_last(), to);
        if transfers.last().to == to {
            rest + transfers.last().amount
        } else {
            rest
        }
    }
}

/// The balances of the payer's, the producer's and the platform's token
/// accounts once `transfers` have been made from the payer's.
pub open spec fn balances_after(ctx: ProcessSplitPayment, transfers: Seq<TokenTransfer>) -> (
    int,
    int,
    int,
) {
    let to_producer = amount_to(transfers, Beneficiary::Producer);
    let to_platform = amount_to(transfers, Beneficiary::Platform);
    (
        ctx.payer_token_account.amount - to_producer - to_platform,
        ctx.producer_token_account.amount + to_producer,
        ctx.platform_token_account.amount + to_platform,
    )
}

/// The balances of the payer's, the producer's and the platform's token accounts.
pub open spec fn balances(ctx: ProcessSplitPayment) -> (int, int, int) {
    (
        ctx.payer_token_account.amount as int,
        ctx.producer_token_account.amount as int,
        ctx.platform_token_account.amount as int,
    )
}

/// What the split transfers move to each side is exactly its share.
proof fn lemma_transfers_carry_shares(platform_fee: u64, producer_amount: u64)
    ensures
        amount_to(transfers_of(platform_fee, producer_amount), Beneficiary::Platform)
            == platform_fee,
        amount_to(transfers_of(platform_fee, producer_amount), Beneficiary::Producer)
            == producer_amount,
{
    let ts = transfers_of(platform_fee, producer_amount);
    reveal_with_fuel(amount_to, 3);
    if platform_fee > 0 && producer_amount > 0 {
        assert(ts.drop_last() =~= seq![TokenTransfer { to: Beneficiary::Platform, amount: platform_fee }]);
        assert(ts.drop_last().drop_last() =~= Seq::<TokenTransfer>::empty());
    } else if platform_fee > 0 {
        assert(ts.drop_last() =~= Seq::<TokenTransfer>::empty());
    } else if producer_amount > 0 {
        assert(ts.drop_last() =~= Seq::<TokenTransfer>::empty());
    } else {
        assert(ts =~= Seq::<TokenTransfer>::empty());
    }
}

/// An accepted payment moves exactly the amount out of the payer's token
/// account: the platform fee to the platform's and the rest to the producer's,
/// so the three balances keep their sum.
pub proof fn lemma_accepted_payment_settles(ctx: ProcessSplitPayment, amount: u64)
    requires
        payment_outcome(ctx, amount) is Ok,
    ensures
        match payment_outcome(ctx, amount) {
            Ok((platform_fee, producer_amount)) => {
                let (payer, producer, platform) = balances_after(
                    ctx,
                    planned_transfers(ctx, amount),
                );
                &&& platform_fee + producer_amount == amount
                &&& payer == ctx.payer_token_account.amount - amount
                &&& producer == ctx.producer_token_account.amount + producer_amount
                &&& platform == ctx.platform_token_account.amount + platform_fee
                &&& payer + producer + platform == balances(ctx).0 + balances(ctx).1 + balances(ctx).2
            },
            Err(_) => false,
        },
{
    if let Ok((platform_fee, producer_amount)) = payment_outcome(ctx, amount) {
        lemma_transfers_carry_shares(platform_fee, producer_amount);
    }
}

/// A rejected payment, whatever the error, calls for no transfer, so every
/// balance stays as it was. The processor takes the accounts and the
/// configuration by shared reference, so it changes neither itself.
pub proof fn lemma_rejected_payment_changes_nothing(ctx: ProcessSplitPayment, amount: u64)
    requires
        payment_outcome(ctx, amount) is Err,
    ensures
        planned_transfers(ctx, amount) == Seq::<TokenTransfer>::empty(),
        balances_after(ctx, planned_transfers(ctx, amount)) == balances(ctx),
{
}

/// A zero amount is always rejected, and with valid accounts it is rejected as
/// `InvalidAmount`.
pub proof fn lemma_zero_amount_rejected(ctx: ProcessSplitPayment)
    ensures
        payment_outcome(ctx, 0) is Err,
        planned_transfers(ctx, 0) == Seq::<TokenTransfer>::empty(),
        accounts_valid(ctx) ==> payment_outcome(ctx, 0) == Err::<(u64, u64), PaymentError>(
            PaymentError::InvalidAmount,
        ),
{
}

/// An amount above the payer's balance is always rejected, and with valid
/// accounts and a valid configuration it is rejected as `InsufficientBalance`.
pub proof fn lemma_insufficient_balance_rejected(ctx: ProcessSplitPayment, amount: u64)
    requires
        ctx.payer_token_account.amount < amount,
    ensures
        payment_outcome(ctx, amount) is Err,
        planned_transfers(ctx, amount) == Seq::<TokenTransfer>::empty(),
        accounts_valid(ctx) && ctx.platform_config.wf() ==> payment_outcome(ctx, amount)
            == Err::<(u64, u64), PaymentError>(PaymentError::InsufficientBalance),
{
    if accounts_valid(ctx) && ctx.platform_config.wf() {
        lemma_split_conserves_amount(amount, ctx.platform_config.platform_fee_basis_points);
    }
}

/// A token account with the wrong owner or the wrong token type is always
/// rejected, as `InvalidTokenAccount` or `InvalidMint`, with no transfer: as
/// `InvalidTokenAccount` when every token type is right, and as `InvalidMint`
/// when every owner is right.
pub proof fn lemma_account_mismatch_rejected(ctx: ProcessSplitPayment, amount: u64)
    requires
        !accounts_valid(ctx),
    ensures
        payment_outcome(ctx, amount) == Err::<(u64, u64), PaymentError>(
            PaymentError::InvalidTokenAccount,
        ) || payment_outcome(ctx, amount) == Err::<(u64, u64), PaymentError>(
            PaymentError::InvalidMint,
        ),
        planned_transfers(ctx, amount) == Seq::<TokenTransfer>::empty(),
        ctx.payer_token_account.mint@ == ctx.usdc_mint@
            && ctx.producer_token_account.mint@ == ctx.usdc_mint@
            && ctx.platform_token_account.mint@ == ctx.usdc_mint@ ==> payment_outcome(ctx, amount)
            == Err::<(u64, u64), PaymentError>(PaymentError::InvalidTokenAccount),
        ctx.payer_token_account.owner@ == ctx.payer@
            && ctx.producer_token_account.owner@ == ctx.producer@
            && ctx.platform_token_account.owner@ == ctx.platform_config.platform_wallet@
            ==> payment_outcome(ctx, amount) == Err::<(u64, u64), PaymentError>(
            PaymentError::InvalidMint,
        ),
{
}

/// The configuration record created for `platform_wallet` by `ctx.authority`,
/// with the default fee ratio.
pub fn initialize_platform(ctx: &InitializePlatform, platform_wallet: Identity) -> (r:
    PlatformConfig)
    ensures
        r.platform_wallet == platform_wallet,
        r.platform_fee_basis_points == DEFAULT_FEE_BASIS_POINTS,
        r.authority == ctx.authority,
        r.wf(),
{
    PlatformConfig {
        platform_wallet,
        platform_fee_basis_points: DEFAULT_FEE_BASIS_POINTS,
        authority: ctx.authority,
    }
}

/// Checks that `account` is owned by `owner` and holds `mint`.
pub fn check_token_account(account: &TokenAccount, owner: &Identity, mint: &Identity) -> (r:
    Result<(), PaymentError>)
    ensures
        r == match token_account_error(*account, *owner, *mint) {
            Some(e) => Err::<(), PaymentError>(e),
            None => Ok(()),
        },
{
    if account.owner != *owner {
        return Err(PaymentError::InvalidTokenAccount);
    }
    if account.mint != *mint {
        return Err(PaymentError::InvalidMint);
    }
    Ok(())
}

/// Checks the three token accounts, in the order payer, producer, platform.
pub fn validate_accounts(ctx: &ProcessSplitPayment) -> (r: Result<(), PaymentError>)
    ensures
        r == match accounts_error(*ctx) {
            Some(e) => Err::<(), PaymentError>(e),
            None => Ok(()),
        },
{
    check_token_account(&ctx.payer_token_account, &ctx.payer, &ctx.usdc_mint)?;
    check_token_account(&ctx.producer_token_account, &ctx.producer, &ctx.usdc_mint)?;
    check_token_account(
        &ctx.platform_token_account,
        &ctx.platform_config.platform_wallet,
        &ctx.usdc_mint,
    )?;
    Ok(())
}

/// Decides a payment of `amount`: every check is made before anything is
/// moved, and an accepted payment comes back with its shares and the transfers
/// that carry it out. A rejected payment comes back as its error and moves
/// nothing.
pub fn process_split_payment(ctx: &ProcessSplitPayment, amount: u64) -> (r: Result<
    PaymentSplit,
    PaymentError,
>)
    ensures
        match r {
            Ok(split) => {
                &&& payment_outcome(*ctx, amount) == Ok::<(u64, u64), PaymentError>(
                    (split.platform_fee, split.producer_amount),
                )
                &&& split.total_amount == amount
                &&& split.transfers@ == transfers_of(split.platform_fee, split.producer_amount)
            },
            Err(e) => payment_outcome(*ctx, amount) == Err::<(u64, u64), PaymentError>(e),
        },
{
    validate_accounts(ctx)?;
    if amount == 0 {
        return Err(PaymentError::InvalidAmount);
    }
    let (platform_fee, producer_amount) = calculate_split(
        amount,
        ctx.platform_config.platform_fee_basis_points,
    )?;
    if ctx.payer_token_account.amount < amount {
        return Err(PaymentError::InsufficientBalance);
    }
    let mut transfers: Vec<TokenTransfer> = Vec::new();
    if platform_fee > 0 {
        transfers.push(TokenTransfer { to: Beneficiary::Platform, amount: platform_fee });
    }
    if producer_amount > 0 {
        transfers.push(TokenTransfer { to: Beneficiary::Producer, amount: producer_amount });
    }
    proof {
        assert(transfers@ =~= transfers_of(platform_fee, producer_amount));
    }
    Ok(PaymentSplit { total_amount: amount, platform_fee, producer_amount, transfers })
}

/// The audit record of a completed split, stamped with `timestamp`.
pub fn payment_event(ctx: &ProcessSplitPayment, split: &PaymentSplit, timestamp: i64) -> (r:
    PaymentProcessed)
    ensures
        r.payer == ctx.payer,
        r.producer == ctx.producer,
        r.total_amount == split.total_amount,
        r.platform_fee == split.platform_fee,
        r.producer_amount == split.producer_amount,
        r.timestamp == timestamp,
{
    PaymentProcessed {
        payer: ctx.payer,
        producer: ctx.producer,
        total_amount: split.total_amount,
        platform_fee: split.platform_fee,
        producer_amount: split.producer_amount,
        timestamp,
    }
}

} // verus!
