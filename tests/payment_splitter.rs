use payment_splitter::{
    calculate_split, initialize_platform, payment_event, process_split_payment, Beneficiary,
    Identity, InitializePlatform, PaymentError, PlatformConfig, ProcessSplitPayment,
    TokenAccount, TokenTransfer, DEFAULT_FEE_BASIS_POINTS,
};

fn id(tag: u8) -> Identity {
    let mut bytes = [0u8; 32];
    bytes[0] = tag;
    bytes[31] = tag.wrapping_mul(7);
    Identity::new(bytes)
}

fn payer() -> Identity {
    id(1)
}

fn producer() -> Identity {
    id(2)
}

fn platform_wallet() -> Identity {
    id(3)
}

fn authority() -> Identity {
    id(4)
}

fn usdc() -> Identity {
    id(5)
}

fn other_mint() -> Identity {
    id(6)
}

fn stranger() -> Identity {
    id(7)
}

fn account(owner: Identity, mint: Identity, amount: u64) -> TokenAccount {
    TokenAccount { owner, mint, amount }
}

fn context(fee_basis_points: u16, payer_balance: u64) -> ProcessSplitPayment {
    ProcessSplitPayment {
        platform_config: PlatformConfig {
            platform_wallet: platform_wallet(),
            platform_fee_basis_points: fee_basis_points,
            authority: authority(),
        },
        payer: payer(),
        producer: producer(),
        payer_token_account: account(payer(), usdc(), payer_balance),
        producer_token_account: account(producer(), usdc(), 10),
        platform_token_account: account(platform_wallet(), usdc(), 20),
        usdc_mint: usdc(),
    }
}

fn balances(ctx: &ProcessSplitPayment) -> (u64, u64, u64) {
    (
        ctx.payer_token_account.amount,
        ctx.producer_token_account.amount,
        ctx.platform_token_account.amount,
    )
}

#[test]
fn twenty_percent_of_one_thousand() {
    let ctx = context(2000, 5000);
    let split = process_split_payment(&ctx, 1000).unwrap();
    assert_eq!(split.total_amount, 1000);
    assert_eq!(split.platform_fee, 200);
    assert_eq!(split.producer_amount, 800);
    assert_eq!(
        split.transfers,
        vec![
            TokenTransfer { to: Beneficiary::Platform, amount: 200 },
            TokenTransfer { to: Beneficiary::Producer, amount: 800 },
        ]
    );
    let event = payment_event(&ctx, &split, 1_700_000_000);
    assert_eq!(event.payer, payer());
    assert_eq!(event.producer, producer());
    assert_eq!(event.total_amount, 1000);
    assert_eq!(event.platform_fee, 200);
    assert_eq!(event.producer_amount, 800);
    assert_eq!(event.timestamp, 1_700_000_000);
}

#[test]
fn small_amount_floors_fee_to_zero() {
    let ctx = context(2000, 5000);
    let split = process_split_payment(&ctx, 4).unwrap();
    assert_eq!(split.platform_fee, 0);
    assert_eq!(split.producer_amount, 4);
    assert_eq!(split.transfers, vec![TokenTransfer { to: Beneficiary::Producer, amount: 4 }]);
}

#[test]
fn zero_ratio_pays_producer_only() {
    let ctx = context(0, 500);
    let split = process_split_payment(&ctx, 500).unwrap();
    assert_eq!(split.platform_fee, 0);
    assert_eq!(split.producer_amount, 500);
    assert_eq!(split.transfers, vec![TokenTransfer { to: Beneficiary::Producer, amount: 500 }]);
}

#[test]
fn full_ratio_pays_platform_only() {
    let ctx = context(10000, 500);
    let split = process_split_payment(&ctx, 500).unwrap();
    assert_eq!(split.platform_fee, 500);
    assert_eq!(split.producer_amount, 0);
    assert_eq!(split.transfers, vec![TokenTransfer { to: Beneficiary::Platform, amount: 500 }]);
}

#[test]
fn zero_amount_is_invalid() {
    let ctx = context(2000, 5000);
    assert_eq!(process_split_payment(&ctx, 0).unwrap_err(), PaymentError::InvalidAmount);
}

#[test]
fn amount_above_balance_is_insufficient() {
    let ctx = context(2000, 999);
    assert_eq!(process_split_payment(&ctx, 1000).unwrap_err(), PaymentError::InsufficientBalance);
    let ctx = context(2000, 1000);
    assert!(process_split_payment(&ctx, 1000).is_ok());
}

#[test]
fn wrong_owner_is_invalid_token_account() {
    let mut ctx = context(2000, 5000);
    ctx.payer_token_account.owner = stranger();
    assert_eq!(process_split_payment(&ctx, 100).unwrap_err(), PaymentError::InvalidTokenAccount);

    let mut ctx = context(2000, 5000);
    ctx.producer_token_account.owner = stranger();
    assert_eq!(process_split_payment(&ctx, 100).unwrap_err(), PaymentError::InvalidTokenAccount);

    let mut ctx = context(2000, 5000);
    ctx.platform_token_account.owner = stranger();
    assert_eq!(process_split_payment(&ctx, 100).unwrap_err(), PaymentError::InvalidTokenAccount);
}

#[test]
fn wrong_token_type_is_invalid_mint() {
    let mut ctx = context(2000, 5000);
    ctx.payer_token_account.mint = other_mint();
    assert_eq!(process_split_payment(&ctx, 100).unwrap_err(), PaymentError::InvalidMint);

    let mut ctx = context(2000, 5000);
    ctx.producer_token_account.mint = other_mint();
    assert_eq!(process_split_payment(&ctx, 100).unwrap_err(), PaymentError::InvalidMint);

    let mut ctx = context(2000, 5000);
    ctx.platform_token_account.mint = other_mint();
    assert_eq!(process_split_payment(&ctx, 100).unwrap_err(), PaymentError::InvalidMint);
}

#[test]
fn account_checks_come_before_the_amount() {
    let mut ctx = context(2000, 5000);
    ctx.producer_token_account.mint = other_mint();
    ctx.platform_token_account.owner = stranger();
    assert_eq!(process_split_payment(&ctx, 0).unwrap_err(), PaymentError::InvalidMint);

    let mut ctx = context(2000, 5000);
    ctx.payer_token_account.owner = stranger();
    ctx.payer_token_account.mint = other_mint();
    assert_eq!(process_split_payment(&ctx, 100).unwrap_err(), PaymentError::InvalidTokenAccount);
}

#[test]
fn identities_differing_in_last_byte_are_distinct() {
    let a = Identity::new([9u8; 32]);
    let mut bytes = [9u8; 32];
    bytes[31] = 8;
    let b = Identity::new(bytes);
    assert!(a != b);
    assert!(a == Identity::new([9u8; 32]));
}

#[test]
fn rejection_leaves_accounts_unchanged() {
    let ctx = context(2000, 50);
    let before = balances(&ctx);
    assert!(process_split_payment(&ctx, 100).is_err());
    assert!(process_split_payment(&ctx, 0).is_err());
    assert_eq!(balances(&ctx), before);
    assert_eq!(ctx.platform_config.platform_fee_basis_points, 2000);
    assert_eq!(ctx.platform_config.platform_wallet, platform_wallet());
    assert_eq!(ctx.platform_config.authority, authority());
}

#[test]
fn shares_add_up_to_amount() {
    let amounts: [u64; 6] = [1, 3, 7, 9999, 123_456_789, u64::MAX];
    let ratios: [u16; 6] = [0, 1, 2000, 3333, 9999, 10000];
    for amount in amounts {
        for ratio in ratios {
            let (fee, rest) = calculate_split(amount, ratio).unwrap();
            assert_eq!(fee as u128 + rest as u128, amount as u128);
            assert_eq!(fee as u128, amount as u128 * ratio as u128 / 10000);
        }
    }
}

#[test]
fn largest_amount_does_not_overflow() {
    assert_eq!(calculate_split(u64::MAX, 10000).unwrap(), (u64::MAX, 0));
    assert_eq!(
        calculate_split(u64::MAX, 2000).unwrap(),
        (3_689_348_814_741_910_323, 14_757_395_258_967_641_292)
    );
    let ctx = context(2000, u64::MAX);
    let split = process_split_payment(&ctx, u64::MAX).unwrap();
    assert_eq!(split.platform_fee, 3_689_348_814_741_910_323);
    assert_eq!(split.producer_amount, 14_757_395_258_967_641_292);
}

#[test]
fn fee_rounds_down() {
    assert_eq!(calculate_split(1001, 2000).unwrap(), (200, 801));
    assert_eq!(calculate_split(9, 1111).unwrap(), (0, 9));
    assert_eq!(calculate_split(10, 1111).unwrap(), (1, 9));
}

#[test]
fn ratio_above_whole_overflows() {
    assert_eq!(calculate_split(10000, 10001).unwrap_err(), PaymentError::CalculationOverflow);
    assert_eq!(calculate_split(1, 10001).unwrap(), (1, 0));
    assert_eq!(calculate_split(u64::MAX, u16::MAX).unwrap_err(), PaymentError::CalculationOverflow);
    let ctx = context(20000, 5000);
    assert_eq!(process_split_payment(&ctx, 100).unwrap_err(), PaymentError::CalculationOverflow);
}

#[test]
fn overflow_is_reported_before_balance() {
    let ctx = context(20000, 50);
    assert_eq!(process_split_payment(&ctx, 100).unwrap_err(), PaymentError::CalculationOverflow);
}

#[test]
fn initialize_sets_default_ratio() {
    let ctx = InitializePlatform { authority: authority() };
    let config = initialize_platform(&ctx, platform_wallet());
    assert_eq!(config.platform_wallet, platform_wallet());
    assert_eq!(config.platform_fee_basis_points, DEFAULT_FEE_BASIS_POINTS);
    assert_eq!(config.platform_fee_basis_points, 2000);
    assert_eq!(config.authority, authority());
}

#[test]
fn error_messages() {
    assert_eq!(PaymentError::InvalidAmount.message(), "Invalid payment amount - must be greater than 0");
    assert_eq!(PaymentError::InsufficientBalance.message(), "Insufficient balance for payment");
    assert_eq!(PaymentError::InvalidTokenAccount.message(), "Invalid token account");
    assert_eq!(PaymentError::InvalidMint.message(), "Invalid mint address");
    assert_eq!(PaymentError::CalculationOverflow.message(), "Calculation overflow");
}
