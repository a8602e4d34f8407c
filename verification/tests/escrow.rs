use anchor_lang::prelude::ProgramError;

use fluxpay_escrow::accounts::{
    derive_addresses, CancelPending, ConfigAccount, CreateEscrow, Deposit, DerivedAddresses,
    EscrowAccount, InitializeConfig, RefundAfterExpiry, Release, Signer, TokenAccount,
    VaultSlot,
};
use fluxpay_escrow::address::{
    derive_associated_token_address, derive_config_address, find_config_address,
    find_escrow_address, id,
};
use fluxpay_escrow::effects::{
    CloseTokenAccount, EscrowSigner, NewRecord, NewVault, RecordSigner, TokenTransfer,
};
use fluxpay_escrow::error::{Constraint, EscrowError, InstructionError};
use fluxpay_escrow::events::{
    ConfigInitialized, EscrowCancelled, EscrowCreated, EscrowFunded, EscrowRefunded, EscrowReleased,
};
use fluxpay_escrow::instructions::{
    cancel_pending, cancel_pending_with, complete_deposit, complete_deposit_with, create_escrow,
    create_escrow_with, deposit, deposit_with, initialize_config, initialize_config_with,
    refund_after_expiry, refund_after_expiry_with, release, release_with, RefundPayout, ReleasePayout,
};
use fluxpay_escrow::pubkey::Pubkey;
use fluxpay_escrow::state::{Config, Escrow, EscrowStatus};

const PAYMENT_ID: [u8; 32] = [77; 32];
const AMOUNT: u64 = 2_500_000;
const WINDOW: i64 = 5;
const GRACE: i64 = 3;
const NOW: i64 = 1_700_000_000;

fn key(byte: u8) -> Pubkey {
    Pubkey { bytes: [byte; 32] }
}

fn admin() -> Pubkey {
    key(1)
}

fn mint() -> Pubkey {
    key(2)
}

fn merchant() -> Pubkey {
    key(3)
}

fn customer() -> Pubkey {
    key(4)
}

fn stranger() -> Pubkey {
    key(5)
}

fn signer(key: Pubkey) -> Signer {
    Signer { key, is_writable: true }
}

fn wallet_account(owner: Pubkey) -> TokenAccount {
    TokenAccount {
        key: derive_associated_token_address(&owner, &mint()).unwrap(),
        is_writable: true,
        mint: mint(),
        owner,
        amount: 10 * AMOUNT,
    }
}

fn blank_config() -> Config {
    Config {
        admin: Pubkey::default(),
        usdc_mint: Pubkey::default(),
        min_payment_window: 0,
        max_payment_window: 0,
        min_grace_period: 0,
        max_grace_period: 0,
        bump: 0,
    }
}

fn blank_escrow() -> Escrow {
    Escrow {
        payment_id: [0; 32],
        depositor: Pubkey::default(),
        merchant: Pubkey::default(),
        amount: 0,
        payment_window: 0,
        grace_period: 0,
        expiry: 0,
        status: EscrowStatus::Pending,
        bump: 0,
    }
}

fn setup_accounts() -> InitializeConfig {
    InitializeConfig {
        config: ConfigAccount {
            key: find_config_address().unwrap().0,
            is_writable: true,
            in_use: false,
            data: blank_config(),
        },
        usdc_mint: mint(),
        payer: signer(key(9)),
    }
}

fn configured() -> ConfigAccount {
    let mut ctx = setup_accounts();
    initialize_config(&mut ctx, admin(), 1, 3600, 1, 600).unwrap();
    ctx.config
}

fn create_accounts() -> CreateEscrow {
    let escrow = find_escrow_address(&PAYMENT_ID).unwrap().0;
    CreateEscrow {
        config: configured(),
        escrow: EscrowAccount {
            key: escrow,
            is_writable: true,
            in_use: false,
            data: blank_escrow(),
        },
        vault: VaultSlot {
            key: derive_associated_token_address(&escrow, &mint()).unwrap(),
            is_writable: true,
            in_use: false,
        },
        usdc_mint: mint(),
        payer: signer(key(9)),
    }
}

fn pending() -> EscrowAccount {
    let mut ctx = create_accounts();
    create_escrow(&mut ctx, PAYMENT_ID, merchant(), AMOUNT, WINDOW, GRACE).unwrap();
    ctx.escrow
}

fn vault_of(escrow: &EscrowAccount) -> TokenAccount {
    let amount = match escrow.data.status {
        EscrowStatus::Funded => AMOUNT,
        _ => 0,
    };
    TokenAccount { amount, ..wallet_account(escrow.key) }
}

fn deposit_accounts(escrow: EscrowAccount) -> Deposit {
    Deposit {
        config: configured(),
        escrow,
        vault: vault_of(&escrow),
        depositor_token_account: wallet_account(customer()),
        usdc_mint: mint(),
        depositor: signer(customer()),
    }
}

fn funded_at(now: i64) -> EscrowAccount {
    let progress = deposit(&deposit_accounts(pending()), PAYMENT_ID).unwrap();
    complete_deposit_with(progress, Ok(now)).unwrap().escrow
}

fn release_accounts(escrow: EscrowAccount) -> Release {
    Release {
        config: configured(),
        escrow,
        vault: vault_of(&escrow),
        merchant_token_account: wallet_account(merchant()),
        admin: signer(admin()),
    }
}

fn refund_accounts(escrow: EscrowAccount) -> RefundAfterExpiry {
    RefundAfterExpiry {
        config: configured(),
        escrow,
        vault: vault_of(&escrow),
        depositor_token_account: wallet_account(customer()),
        usdc_mint: mint(),
        caller: signer(stranger()),
    }
}

fn cancel_accounts(escrow: EscrowAccount) -> CancelPending {
    CancelPending {
        config: configured(),
        escrow,
        vault: vault_of(&escrow),
        usdc_mint: mint(),
        merchant: signer(merchant()),
    }
}

fn config_at() -> Option<Pubkey> {
    derive_config_address(configured().data.bump)
}

fn addresses_of(escrow: &EscrowAccount) -> DerivedAddresses {
    derive_addresses(&PAYMENT_ID, escrow, &mint())
}

fn release_at(ctx: &mut Release, now: i64) -> Result<ReleasePayout, InstructionError> {
    let config = derive_config_address(ctx.config.data.bump);
    let addresses = derive_addresses(&PAYMENT_ID, &ctx.escrow, &ctx.config.data.usdc_mint);
    release_with(ctx, PAYMENT_ID, config, addresses, Ok(now))
}

fn refund_at(ctx: &mut RefundAfterExpiry, now: i64) -> Result<RefundPayout, InstructionError> {
    let config = derive_config_address(ctx.config.data.bump);
    let addresses = derive_addresses(&PAYMENT_ID, &ctx.escrow, &ctx.config.data.usdc_mint);
    refund_after_expiry_with(ctx, PAYMENT_ID, config, addresses, Ok(now))
}

fn rule<T>(error: EscrowError) -> Result<T, InstructionError> {
    Err(InstructionError::Escrow(error))
}

fn account<T>(constraint: Constraint) -> Result<T, InstructionError> {
    Err(InstructionError::Account(constraint))
}

// Setup

#[test]
fn config_is_initialized() {
    let mut ctx = setup_accounts();
    let before = ctx;
    let setup = initialize_config(&mut ctx, admin(), 1, 3600, 2, 600).unwrap();
    let bump = find_config_address().unwrap().1;
    assert_eq!(setup.event, ConfigInitialized { admin: admin(), usdc_mint: mint() });
    assert_eq!(
        setup.create,
        NewRecord {
            account: before.config.key,
            payer: key(9),
            space: 105,
            owner: id(),
            signer: RecordSigner::Config(bump),
        }
    );
    assert!(ctx.config.in_use);
    assert_eq!(
        ctx.config.data,
        Config {
            admin: admin(),
            usdc_mint: mint(),
            min_payment_window: 1,
            max_payment_window: 3600,
            min_grace_period: 2,
            max_grace_period: 600,
            bump,
        }
    );
    assert_eq!(ctx.config.key, before.config.key);
    assert_eq!(derive_config_address(ctx.config.data.bump), Some(ctx.config.key));
}

#[test]
fn config_bounds_are_enforced() {
    for (min_window, max_window, min_grace, max_grace) in [
        (0, 10, 1, 10),
        (-1, 10, 1, 10),
        (10, 9, 1, 10),
        (1, 10, 0, 10),
        (1, 10, -5, 10),
        (1, 10, 10, 9),
        (i64::MIN, i64::MAX, 1, 1),
    ] {
        let mut ctx = setup_accounts();
        let before = ctx;
        assert_eq!(
            initialize_config(&mut ctx, admin(), min_window, max_window, min_grace, max_grace),
            rule(EscrowError::InvalidBounds)
        );
        assert_eq!(ctx, before);
    }
    let mut ctx = setup_accounts();
    assert!(initialize_config(&mut ctx, admin(), 1, 1, 1, 1).is_ok());
    let mut ctx = setup_accounts();
    assert!(initialize_config(&mut ctx, admin(), 1, i64::MAX, 1, i64::MAX).is_ok());
}

#[test]
fn config_lives_at_its_own_address() {
    let mut ctx = setup_accounts();
    ctx.config.key = key(50);
    let before = ctx;
    assert_eq!(
        initialize_config(&mut ctx, admin(), 1, 10, 1, 10),
        account(Constraint::Seeds)
    );
    assert_eq!(ctx, before);

    let mut ctx = setup_accounts();
    ctx.config.is_writable = false;
    assert_eq!(initialize_config(&mut ctx, admin(), 1, 10, 1, 10), account(Constraint::Mut));

    let mut ctx = setup_accounts();
    ctx.payer.is_writable = false;
    assert_eq!(initialize_config(&mut ctx, admin(), 0, 10, 1, 10), account(Constraint::Mut));

    let mut ctx = setup_accounts();
    assert_eq!(
        initialize_config_with(&mut ctx, admin(), 1, 10, 1, 10, None),
        Err(InstructionError::NoProgramAddress)
    );
    let found = Some((ctx.config.key, 200));
    let setup = initialize_config_with(&mut ctx, admin(), 1, 10, 1, 10, found).unwrap();
    assert_eq!(setup.event.admin, admin());
    assert_eq!(ctx.config.data.bump, 200);
}

#[test]
fn config_is_initialized_once() {
    let mut ctx = setup_accounts();
    initialize_config(&mut ctx, admin(), 1, 3600, 1, 600).unwrap();
    let before = ctx;
    ctx.usdc_mint = key(50);
    ctx.payer = signer(stranger());
    assert_eq!(
        initialize_config(&mut ctx, stranger(), 1, 10, 1, 10),
        Err(InstructionError::AccountInUse)
    );
    assert_eq!(ctx.config, before.config);
}

// Creation

#[test]
fn escrow_is_created_unfunded() {
    let mut ctx = create_accounts();
    let opening = create_escrow(&mut ctx, PAYMENT_ID, merchant(), AMOUNT, WINDOW, GRACE).unwrap();
    let (address, bump) = find_escrow_address(&PAYMENT_ID).unwrap();
    assert_eq!(
        opening.create,
        NewRecord {
            account: address,
            payer: key(9),
            space: 138,
            owner: id(),
            signer: RecordSigner::Escrow(EscrowSigner { payment_id: PAYMENT_ID, bump }),
        }
    );
    assert_eq!(
        opening.create_vault,
        NewVault {
            account: derive_associated_token_address(&address, &mint()).unwrap(),
            payer: key(9),
            authority: address,
            mint: mint(),
        }
    );
    assert!(ctx.escrow.in_use);
    assert!(ctx.vault.in_use);
    assert_eq!(
        opening.event,
        EscrowCreated { payment_id: PAYMENT_ID, merchant: merchant(), amount: AMOUNT }
    );
    assert_eq!(
        ctx.escrow.data,
        Escrow {
            payment_id: PAYMENT_ID,
            depositor: Pubkey::default(),
            merchant: merchant(),
            amount: AMOUNT,
            payment_window: WINDOW,
            grace_period: GRACE,
            expiry: 0,
            status: EscrowStatus::Pending,
            bump,
        }
    );
    assert_eq!(ctx.config, create_accounts().config);
}

#[test]
fn amount_must_be_positive() {
    let mut ctx = create_accounts();
    let before = ctx;
    assert_eq!(
        create_escrow(&mut ctx, PAYMENT_ID, merchant(), 0, 0, 0),
        rule(EscrowError::InvalidAmount)
    );
    assert_eq!(ctx, before);
}

#[test]
fn timing_bounds_are_enforced() {
    for window in [0, 3601, -1, i64::MAX, i64::MIN] {
        let mut ctx = create_accounts();
        assert_eq!(
            create_escrow(&mut ctx, PAYMENT_ID, merchant(), 1, window, 0),
            rule(EscrowError::PaymentWindowOutOfBounds)
        );
    }
    for grace in [0, 601, -1, i64::MAX, i64::MIN] {
        let mut ctx = create_accounts();
        assert_eq!(
            create_escrow(&mut ctx, PAYMENT_ID, merchant(), 1, WINDOW, grace),
            rule(EscrowError::GracePeriodOutOfBounds)
        );
    }
    for (window, grace) in [(1, 1), (3600, 600), (1, 600), (3600, 1)] {
        let mut ctx = create_accounts();
        assert!(create_escrow(&mut ctx, PAYMENT_ID, merchant(), 1, window, grace).is_ok());
    }
}

#[test]
fn escrow_creation_needs_its_accounts() {
    let mut ctx = create_accounts();
    ctx.escrow.key = key(50);
    assert_eq!(
        create_escrow(&mut ctx, PAYMENT_ID, merchant(), 1, WINDOW, GRACE),
        account(Constraint::Seeds)
    );

    // The address of another payment.
    let mut ctx = create_accounts();
    assert_eq!(
        create_escrow(&mut ctx, [78; 32], merchant(), 1, WINDOW, GRACE),
        account(Constraint::Seeds)
    );

    let mut ctx = create_accounts();
    ctx.config.key = key(50);
    assert_eq!(
        create_escrow(&mut ctx, PAYMENT_ID, merchant(), 1, WINDOW, GRACE),
        account(Constraint::Seeds)
    );

    let mut ctx = create_accounts();
    ctx.config.in_use = false;
    assert_eq!(
        create_escrow(&mut ctx, PAYMENT_ID, merchant(), 1, WINDOW, GRACE),
        Err(InstructionError::AccountNotInitialized)
    );

    // The vault of another mint.
    let mut ctx = create_accounts();
    ctx.usdc_mint = key(50);
    assert_eq!(
        create_escrow(&mut ctx, PAYMENT_ID, merchant(), 1, WINDOW, GRACE),
        account(Constraint::Associated)
    );
    ctx.vault.key = derive_associated_token_address(&ctx.escrow.key, &key(50)).unwrap();
    assert_eq!(
        create_escrow(&mut ctx, PAYMENT_ID, merchant(), 1, WINDOW, GRACE),
        account(Constraint::Address)
    );

    let mut ctx = create_accounts();
    ctx.vault.in_use = true;
    assert_eq!(
        create_escrow(&mut ctx, PAYMENT_ID, merchant(), 1, WINDOW, GRACE),
        Err(InstructionError::VaultInUse)
    );

    let mut ctx = create_accounts();
    ctx.vault.is_writable = false;
    assert_eq!(
        create_escrow(&mut ctx, PAYMENT_ID, merchant(), 1, WINDOW, GRACE),
        account(Constraint::Mut)
    );

    let mut ctx = create_accounts();
    ctx.escrow.is_writable = false;
    assert_eq!(
        create_escrow(&mut ctx, PAYMENT_ID, merchant(), 1, WINDOW, GRACE),
        account(Constraint::Mut)
    );

    let mut ctx = create_accounts();
    ctx.payer.is_writable = false;
    let before = ctx;
    assert_eq!(
        create_escrow(&mut ctx, PAYMENT_ID, merchant(), 1, WINDOW, GRACE),
        account(Constraint::Mut)
    );
    assert_eq!(ctx, before);

    let mut ctx = create_accounts();
    assert_eq!(
        create_escrow_with(&mut ctx, PAYMENT_ID, merchant(), 1, WINDOW, GRACE, None, None, None),
        Err(InstructionError::NoProgramAddress)
    );
    let found = find_escrow_address(&PAYMENT_ID);
    let config = config_at();
    assert_eq!(
        create_escrow_with(
            &mut ctx, PAYMENT_ID, merchant(), 1, WINDOW, GRACE, found, None, config
        ),
        Err(InstructionError::NoProgramAddress)
    );
}

#[test]
fn payment_has_one_escrow() {
    let mut released = release_accounts(funded_at(NOW));
    release_at(&mut released, NOW).unwrap();
    let mut refunded = refund_accounts(funded_at(NOW));
    refund_at(&mut refunded, NOW + WINDOW + GRACE + 1).unwrap();
    for escrow in [pending(), funded_at(NOW), released.escrow, refunded.escrow] {
        let mut ctx = create_accounts();
        ctx.escrow = escrow;
        assert_eq!(
            create_escrow(&mut ctx, PAYMENT_ID, stranger(), 1, WINDOW, GRACE),
            Err(InstructionError::AccountInUse)
        );
        assert_eq!(ctx.escrow, escrow);
    }
}

// Deposit

#[test]
fn deposit_pulls_the_amount_and_records_the_signer() {
    let ctx = deposit_accounts(pending());
    let progress = deposit(&ctx, PAYMENT_ID).unwrap();
    assert_eq!(
        progress.transfer(),
        TokenTransfer {
            from: wallet_account(customer()).key,
            to: vault_of(&ctx.escrow).key,
            authority: customer(),
            amount: AMOUNT,
            signer: None,
        }
    );
    let done = complete_deposit_with(progress, Ok(NOW)).unwrap();
    assert_eq!(
        done.event,
        EscrowFunded { payment_id: PAYMENT_ID, depositor: customer(), expiry: NOW + WINDOW }
    );
    assert_eq!(
        done.escrow.data,
        Escrow {
            depositor: customer(),
            expiry: NOW + WINDOW,
            status: EscrowStatus::Funded,
            ..pending().data
        }
    );
    assert_eq!(done.escrow.key, ctx.escrow.key);
    assert!(done.escrow.in_use);
}

#[test]
fn deposit_needs_its_accounts() {
    let good = deposit_accounts(pending());

    let mut ctx = good;
    ctx.escrow.key = key(50);
    assert_eq!(deposit(&ctx, PAYMENT_ID), account(Constraint::Seeds));

    assert_eq!(deposit(&good, [78; 32]), account(Constraint::Seeds));

    let mut ctx = good;
    ctx.escrow.data.bump = ctx.escrow.data.bump.wrapping_add(1);
    assert_eq!(deposit(&ctx, PAYMENT_ID), account(Constraint::Seeds));

    let mut ctx = good;
    ctx.escrow.is_writable = false;
    assert_eq!(deposit(&ctx, PAYMENT_ID), account(Constraint::Mut));

    let mut ctx = good;
    ctx.vault.owner = stranger();
    assert_eq!(deposit(&ctx, PAYMENT_ID), account(Constraint::TokenOwner));

    let mut ctx = good;
    ctx.vault.key = key(50);
    assert_eq!(deposit(&ctx, PAYMENT_ID), account(Constraint::Associated));

    let mut ctx = good;
    ctx.vault.is_writable = false;
    assert_eq!(deposit(&ctx, PAYMENT_ID), account(Constraint::Mut));

    let mut ctx = good;
    ctx.depositor_token_account.is_writable = false;
    assert_eq!(deposit(&ctx, PAYMENT_ID), account(Constraint::Mut));

    let mut ctx = good;
    ctx.depositor_token_account.mint = key(50);
    ctx.depositor_token_account.owner = stranger();
    assert_eq!(deposit(&ctx, PAYMENT_ID), rule(EscrowError::WrongMint));

    let mut ctx = good;
    ctx.depositor_token_account.owner = stranger();
    assert_eq!(deposit(&ctx, PAYMENT_ID), rule(EscrowError::WrongDepositor));

    let mut ctx = good;
    ctx.depositor.is_writable = false;
    assert_eq!(deposit(&ctx, PAYMENT_ID), account(Constraint::Mut));

    let mut addresses = addresses_of(&good.escrow);
    addresses.vault = None;
    assert_eq!(
        deposit_with(&good, config_at(), addresses),
        Err(InstructionError::NoProgramAddress)
    );

    let mut ctx = good;
    ctx.config.key = key(50);
    assert_eq!(deposit(&ctx, PAYMENT_ID), account(Constraint::Seeds));

    let mut ctx = good;
    ctx.config.in_use = false;
    assert_eq!(deposit(&ctx, PAYMENT_ID), Err(InstructionError::AccountNotInitialized));

    let mut ctx = good;
    ctx.escrow.in_use = false;
    assert_eq!(deposit(&ctx, PAYMENT_ID), Err(InstructionError::AccountNotInitialized));
}

#[test]
fn other_tokens_are_not_accepted() {
    let other = key(50);
    let escrow = pending();
    let other_vault = TokenAccount {
        key: derive_associated_token_address(&escrow.key, &other).unwrap(),
        is_writable: true,
        mint: other,
        owner: escrow.key,
        amount: 0,
    };

    // Everything in the other token.
    let mut ctx = deposit_accounts(escrow);
    ctx.usdc_mint = other;
    ctx.vault = other_vault;
    ctx.depositor_token_account.mint = other;
    assert_eq!(deposit(&ctx, PAYMENT_ID), account(Constraint::Associated));
    // The right vault, but the other token.
    ctx.vault = vault_of(&escrow);
    assert_eq!(deposit(&ctx, PAYMENT_ID), account(Constraint::Address));

    let funded = funded_at(NOW);
    let after = NOW + WINDOW + GRACE + 1;
    let mut ctx = refund_accounts(funded);
    ctx.usdc_mint = other;
    ctx.vault = other_vault;
    assert_eq!(refund_at(&mut ctx, after), account(Constraint::Associated));
    ctx.vault = vault_of(&funded);
    assert_eq!(refund_at(&mut ctx, after), account(Constraint::Address));
    assert_eq!(ctx.escrow, funded);

    let mut ctx = cancel_accounts(escrow);
    ctx.usdc_mint = other;
    ctx.vault = other_vault;
    assert_eq!(cancel_pending(&mut ctx, PAYMENT_ID), account(Constraint::Associated));
    ctx.vault = vault_of(&escrow);
    assert_eq!(cancel_pending(&mut ctx, PAYMENT_ID), account(Constraint::Address));
    assert_eq!(ctx.escrow, escrow);
}

#[test]
fn deposit_needs_a_pending_escrow() {
    for status in [EscrowStatus::Funded, EscrowStatus::Released, EscrowStatus::Refunded] {
        let mut ctx = deposit_accounts(pending());
        ctx.escrow.data.status = status;
        assert_eq!(deposit(&ctx, PAYMENT_ID), rule(EscrowError::InvalidStatus));
    }
}

#[test]
fn expiry_must_be_a_time() {
    let ctx = deposit_accounts(pending());
    let progress = deposit(&ctx, PAYMENT_ID).unwrap();
    assert_eq!(
        complete_deposit_with(progress, Ok(i64::MAX - WINDOW + 1)),
        rule(EscrowError::MathOverflow)
    );
    let progress = deposit(&ctx, PAYMENT_ID).unwrap();
    assert_eq!(complete_deposit_with(progress, Err(8)), Err(InstructionError::Clock(8)));
    let progress = deposit(&ctx, PAYMENT_ID).unwrap();
    let done = complete_deposit_with(progress, Ok(i64::MAX - WINDOW)).unwrap();
    assert_eq!(done.escrow.data.expiry, i64::MAX);
}

// Release

#[test]
fn happy_path_pays_the_merchant() {
    let escrow = funded_at(NOW);
    let mut ctx = release_accounts(escrow);
    let payout = release_at(&mut ctx, NOW + 1).unwrap();
    let escrow_signer = EscrowSigner { payment_id: PAYMENT_ID, bump: escrow.data.bump };
    assert_eq!(
        payout,
        ReleasePayout {
            transfer: TokenTransfer {
                from: vault_of(&escrow).key,
                to: wallet_account(merchant()).key,
                authority: escrow.key,
                amount: AMOUNT,
                signer: Some(escrow_signer),
            },
            close_vault: Some(CloseTokenAccount {
                account: vault_of(&escrow).key,
                destination: wallet_account(merchant()).key,
                authority: escrow.key,
                signer: escrow_signer,
            }),
            event: EscrowReleased {
                payment_id: PAYMENT_ID,
                merchant: merchant(),
                amount: AMOUNT,
            },
        }
    );
    assert_eq!(ctx.escrow.data, Escrow { status: EscrowStatus::Released, ..escrow.data });
}

#[test]
fn only_the_admin_releases() {
    for other in [stranger(), merchant(), customer()] {
        let mut ctx = release_accounts(funded_at(NOW));
        ctx.admin = signer(other);
        let before = ctx;
        assert_eq!(release_at(&mut ctx, NOW), rule(EscrowError::UnauthorizedAdmin));
        assert_eq!(ctx, before);
    }
}

#[test]
fn release_goes_to_the_recorded_merchant_only() {
    let mut ctx = release_accounts(funded_at(NOW));
    ctx.merchant_token_account = wallet_account(stranger());
    assert_eq!(release_at(&mut ctx, NOW), rule(EscrowError::WrongMerchant));
}

#[test]
fn release_does_not_pay_into_the_vault() {
    // An escrow that names itself as the merchant.
    let mut ctx = create_accounts();
    let itself = ctx.escrow.key;
    create_escrow(&mut ctx, PAYMENT_ID, itself, AMOUNT, WINDOW, GRACE).unwrap();
    let progress = deposit(&deposit_accounts(ctx.escrow), PAYMENT_ID).unwrap();
    let escrow = complete_deposit_with(progress, Ok(NOW)).unwrap().escrow;
    for amount in [AMOUNT, AMOUNT + 1] {
        let mut ctx = release_accounts(escrow);
        ctx.vault.amount = amount;
        ctx.merchant_token_account = ctx.vault;
        let before = ctx;
        assert_eq!(release_at(&mut ctx, NOW), Err(InstructionError::PayoutIntoVault));
        assert_eq!(
            release_at(&mut ctx, NOW + WINDOW + GRACE + 1),
            rule(EscrowError::ReleaseWindowPassed)
        );
        assert_eq!(ctx, before);
    }
    assert!(refund_at(&mut refund_accounts(escrow), NOW + WINDOW + GRACE + 1).is_ok());
}

#[test]
fn release_window_ends_with_the_grace_period() {
    let deadline = NOW + WINDOW + GRACE;
    let mut ctx = release_accounts(funded_at(NOW));
    assert_eq!(release_at(&mut ctx, deadline + 1), rule(EscrowError::ReleaseWindowPassed));
    assert_eq!(release_at(&mut ctx, i64::MAX), rule(EscrowError::ReleaseWindowPassed));
    assert!(release_at(&mut ctx, deadline).is_ok());
}

#[test]
fn release_needs_its_accounts() {
    let good = release_accounts(funded_at(NOW));

    let mut ctx = good;
    ctx.config.key = key(50);
    assert_eq!(release_at(&mut ctx, NOW), account(Constraint::Seeds));

    let mut ctx = good;
    ctx.escrow.key = key(50);
    assert_eq!(release_at(&mut ctx, NOW), account(Constraint::Seeds));

    let mut ctx = good;
    ctx.escrow.is_writable = false;
    assert_eq!(release_at(&mut ctx, NOW), account(Constraint::Mut));

    let mut ctx = good;
    ctx.vault.owner = merchant();
    assert_eq!(release_at(&mut ctx, NOW), account(Constraint::TokenOwner));

    // The vault of another mint.
    let mut ctx = good;
    ctx.vault.key = derive_associated_token_address(&ctx.escrow.key, &key(50)).unwrap();
    assert_eq!(release_at(&mut ctx, NOW), account(Constraint::Associated));

    let mut ctx = good;
    ctx.vault.is_writable = false;
    assert_eq!(release_at(&mut ctx, NOW), account(Constraint::Mut));

    let mut ctx = good;
    ctx.merchant_token_account.is_writable = false;
    assert_eq!(release_at(&mut ctx, NOW), account(Constraint::Mut));

    let mut ctx = good;
    ctx.config.in_use = false;
    assert_eq!(release_at(&mut ctx, NOW), Err(InstructionError::AccountNotInitialized));

    let mut ctx = good;
    ctx.escrow.in_use = false;
    assert_eq!(release_at(&mut ctx, NOW), Err(InstructionError::AccountNotInitialized));

    let mut ctx = good;
    let config = derive_config_address(ctx.config.data.bump);
    let none = DerivedAddresses { escrow: Some(ctx.escrow.key), vault: None };
    assert_eq!(
        release_with(&mut ctx, PAYMENT_ID, config, none, Ok(NOW)),
        Err(InstructionError::NoProgramAddress)
    );
}

#[test]
fn release_needs_a_funded_escrow() {
    for status in [EscrowStatus::Pending, EscrowStatus::Released, EscrowStatus::Refunded] {
        let mut ctx = release_accounts(funded_at(NOW));
        ctx.escrow.data.status = status;
        assert_eq!(release_at(&mut ctx, NOW), rule(EscrowError::InvalidStatus));
    }
}

// Refund

#[test]
fn anyone_refunds_the_depositor_after_the_window() {
    let escrow = funded_at(NOW);
    let after = NOW + WINDOW + GRACE + 1;
    let escrow_signer = EscrowSigner { payment_id: PAYMENT_ID, bump: escrow.data.bump };
    for caller in [stranger(), customer(), merchant(), admin()] {
        let mut ctx = refund_accounts(escrow);
        ctx.caller = Signer { key: caller, is_writable: false };
        let payout = refund_at(&mut ctx, after).unwrap();
        assert_eq!(
            payout,
            RefundPayout {
                transfer: TokenTransfer {
                    from: vault_of(&escrow).key,
                    to: wallet_account(customer()).key,
                    authority: escrow.key,
                    amount: AMOUNT,
                    signer: Some(escrow_signer),
                },
                close_vault: Some(CloseTokenAccount {
                    account: vault_of(&escrow).key,
                    destination: wallet_account(customer()).key,
                    authority: escrow.key,
                    signer: escrow_signer,
                }),
                event: EscrowRefunded {
                    payment_id: PAYMENT_ID,
                    depositor: customer(),
                    amount: AMOUNT,
                },
            }
        );
        assert_eq!(ctx.escrow.data, Escrow { status: EscrowStatus::Refunded, ..escrow.data });
    }
}

#[test]
fn early_refund_is_refused() {
    let mut ctx = refund_accounts(funded_at(NOW));
    let before = ctx;
    for now in [NOW, NOW + WINDOW, NOW + WINDOW + 1, NOW + WINDOW + GRACE] {
        assert_eq!(refund_at(&mut ctx, now), rule(EscrowError::StillInReleaseWindow));
    }
    assert_eq!(ctx, before);
}

#[test]
fn refund_goes_to_the_recorded_depositor_only() {
    let mut ctx = refund_accounts(funded_at(NOW));
    ctx.depositor_token_account = wallet_account(stranger());
    assert_eq!(
        refund_at(&mut ctx, NOW + WINDOW + GRACE + 1),
        rule(EscrowError::WrongDepositor)
    );
    assert_eq!(
        refund_at(&mut ctx, NOW + WINDOW + GRACE),
        rule(EscrowError::StillInReleaseWindow)
    );
}

#[test]
fn refund_needs_its_accounts() {
    let good = refund_accounts(funded_at(NOW));
    let after = NOW + WINDOW + GRACE + 1;

    let mut ctx = good;
    ctx.escrow.key = key(50);
    assert_eq!(refund_at(&mut ctx, after), account(Constraint::Seeds));

    let mut ctx = good;
    ctx.escrow.is_writable = false;
    assert_eq!(refund_at(&mut ctx, after), account(Constraint::Mut));

    let mut ctx = good;
    ctx.vault.owner = stranger();
    assert_eq!(refund_at(&mut ctx, after), account(Constraint::TokenOwner));

    let mut ctx = good;
    ctx.vault.key = key(50);
    assert_eq!(refund_at(&mut ctx, after), account(Constraint::Associated));

    let mut ctx = good;
    ctx.vault.is_writable = false;
    assert_eq!(refund_at(&mut ctx, after), account(Constraint::Mut));

    let mut ctx = good;
    ctx.depositor_token_account.is_writable = false;
    assert_eq!(refund_at(&mut ctx, after), account(Constraint::Mut));

    let mut ctx = good;
    let none = DerivedAddresses { escrow: Some(ctx.escrow.key), vault: None };
    assert_eq!(
        refund_after_expiry_with(&mut ctx, PAYMENT_ID, config_at(), none, Ok(after)),
        Err(InstructionError::NoProgramAddress)
    );

    let mut ctx = good;
    ctx.config.key = key(50);
    assert_eq!(refund_at(&mut ctx, after), account(Constraint::Seeds));

    let mut ctx = good;
    ctx.escrow.in_use = false;
    assert_eq!(refund_at(&mut ctx, after), Err(InstructionError::AccountNotInitialized));
}

#[test]
fn deadline_must_be_a_time() {
    let mut escrow = funded_at(NOW);
    escrow.data.expiry = i64::MAX - GRACE + 1;
    assert_eq!(
        release_at(&mut release_accounts(escrow), i64::MAX),
        rule(EscrowError::MathOverflow)
    );
    assert_eq!(refund_at(&mut refund_accounts(escrow), i64::MAX), rule(EscrowError::MathOverflow));
    escrow.data.expiry = i64::MAX - GRACE;
    assert!(release_at(&mut release_accounts(escrow), i64::MAX).is_ok());
    assert_eq!(
        refund_at(&mut refund_accounts(escrow), i64::MAX),
        rule(EscrowError::StillInReleaseWindow)
    );
}

// Cancellation

#[test]
fn merchant_cancels_a_pending_escrow() {
    let escrow = pending();
    let mut ctx = cancel_accounts(escrow);
    let cancelled = cancel_pending(&mut ctx, PAYMENT_ID).unwrap();
    assert_eq!(ctx.escrow, EscrowAccount { in_use: false, ..escrow });
    assert_eq!(
        cancelled.close_vault,
        Some(CloseTokenAccount {
            account: vault_of(&escrow).key,
            destination: merchant(),
            authority: escrow.key,
            signer: EscrowSigner { payment_id: PAYMENT_ID, bump: escrow.data.bump },
        })
    );
    assert_eq!(cancelled.close_escrow, escrow.key);
    assert_eq!(cancelled.rent_to, merchant());
    assert_eq!(cancelled.event, EscrowCancelled { payment_id: PAYMENT_ID });
}

#[test]
fn only_the_merchant_cancels() {
    let mut ctx = cancel_accounts(pending());
    ctx.merchant = signer(stranger());
    assert_eq!(cancel_pending(&mut ctx, PAYMENT_ID), rule(EscrowError::UnauthorizedMerchant));
}

#[test]
fn funded_escrow_is_not_cancelled() {
    assert_eq!(
        cancel_pending(&mut cancel_accounts(funded_at(NOW)), PAYMENT_ID),
        rule(EscrowError::InvalidStatus)
    );
}

#[test]
fn cancel_needs_its_accounts() {
    let good = cancel_accounts(pending());

    let mut ctx = good;
    assert_eq!(cancel_pending(&mut ctx, [78; 32]), account(Constraint::Seeds));

    let mut ctx = good;
    ctx.escrow.is_writable = false;
    assert_eq!(cancel_pending(&mut ctx, PAYMENT_ID), account(Constraint::Mut));

    let mut ctx = good;
    ctx.merchant.key = ctx.escrow.key;
    assert_eq!(cancel_pending(&mut ctx, PAYMENT_ID), account(Constraint::Close));

    let mut ctx = good;
    ctx.vault.owner = merchant();
    assert_eq!(cancel_pending(&mut ctx, PAYMENT_ID), account(Constraint::TokenOwner));

    let mut ctx = good;
    ctx.vault.key = key(50);
    assert_eq!(cancel_pending(&mut ctx, PAYMENT_ID), account(Constraint::Associated));

    let mut ctx = good;
    ctx.vault.is_writable = false;
    assert_eq!(cancel_pending(&mut ctx, PAYMENT_ID), account(Constraint::Mut));

    let mut ctx = good;
    ctx.merchant.is_writable = false;
    assert_eq!(cancel_pending(&mut ctx, PAYMENT_ID), account(Constraint::Mut));

    let mut ctx = good;
    let none = DerivedAddresses { escrow: Some(good.escrow.key), vault: None };
    assert_eq!(
        cancel_pending_with(&mut ctx, PAYMENT_ID, config_at(), none),
        Err(InstructionError::NoProgramAddress)
    );

    let mut ctx = good;
    ctx.config.key = key(50);
    assert_eq!(cancel_pending(&mut ctx, PAYMENT_ID), account(Constraint::Seeds));
}

#[test]
fn nothing_follows_a_cancellation() {
    let mut ctx = cancel_accounts(pending());
    cancel_pending(&mut ctx, PAYMENT_ID).unwrap();
    let closed = ctx.escrow;
    let gone = InstructionError::AccountNotInitialized;
    assert_eq!(deposit(&deposit_accounts(closed), PAYMENT_ID), Err(gone));
    assert_eq!(release_at(&mut release_accounts(closed), NOW), Err(gone));
    assert_eq!(refund_at(&mut refund_accounts(closed), i64::MAX), Err(gone));
    assert_eq!(cancel_pending(&mut cancel_accounts(closed), PAYMENT_ID), Err(gone));

    // The payment can be given an escrow again.
    let mut ctx = create_accounts();
    ctx.escrow = closed;
    assert!(create_escrow(&mut ctx, PAYMENT_ID, merchant(), 1, WINDOW, GRACE).is_ok());
    assert_eq!(ctx.escrow.data.amount, 1);
}

#[test]
fn unsolicited_tokens_do_not_block_the_cancellation() {
    let escrow = pending();
    let mut ctx = cancel_accounts(escrow);
    ctx.vault.amount = 1;
    let cancelled = cancel_pending(&mut ctx, PAYMENT_ID).unwrap();
    assert_eq!(cancelled.close_vault, None);
    assert_eq!(cancelled.close_escrow, escrow.key);
    assert_eq!(cancelled.rent_to, merchant());
    assert!(!ctx.escrow.in_use);
}

// The whole life

#[test]
fn unsolicited_tokens_do_not_block_a_payout() {
    let escrow = funded_at(NOW);
    let after = NOW + WINDOW + GRACE + 1;
    let plain_release = release_at(&mut release_accounts(escrow), NOW).unwrap();
    let plain_refund = refund_at(&mut refund_accounts(escrow), after).unwrap();
    for extra in [1, AMOUNT, u64::MAX - AMOUNT] {
        let mut ctx = release_accounts(escrow);
        ctx.vault.amount = AMOUNT + extra;
        let payout = release_at(&mut ctx, NOW).unwrap();
        assert_eq!(payout, ReleasePayout { close_vault: None, ..plain_release });
        assert_eq!(payout.transfer.amount, AMOUNT);
        assert_eq!(ctx.escrow.data.status, EscrowStatus::Released);

        let mut ctx = refund_accounts(escrow);
        ctx.vault.amount = AMOUNT + extra;
        let payout = refund_at(&mut ctx, after).unwrap();
        assert_eq!(payout, RefundPayout { close_vault: None, ..plain_refund });
        assert_eq!(payout.transfer.to, wallet_account(customer()).key);
        assert_eq!(payout.transfer.amount, AMOUNT);
        assert_eq!(ctx.escrow.data.status, EscrowStatus::Refunded);
    }
}

#[test]
fn payments_have_accounts_of_their_own() {
    let other_id = [78; 32];
    let escrow = find_escrow_address(&other_id).unwrap().0;
    let mut other = create_accounts();
    other.escrow.key = escrow;
    other.vault.key = derive_associated_token_address(&escrow, &mint()).unwrap();
    let second = create_escrow(&mut other, other_id, merchant(), AMOUNT, WINDOW, GRACE).unwrap();
    let mut ctx = create_accounts();
    let first = create_escrow(&mut ctx, PAYMENT_ID, merchant(), AMOUNT, WINDOW, GRACE).unwrap();
    assert!(first.create.account != second.create.account);
    assert!(first.create_vault.account != second.create_vault.account);

    // The vault of the other payment is not accepted.
    let mut ctx = deposit_accounts(pending());
    ctx.vault = wallet_account(other.escrow.key);
    assert_eq!(deposit(&ctx, PAYMENT_ID), account(Constraint::TokenOwner));
}

#[test]
fn no_double_payout() {
    let mut paid = release_accounts(funded_at(NOW));
    release_at(&mut paid, NOW).unwrap();
    let released = paid.escrow;
    let after = NOW + WINDOW + GRACE + 1;
    assert_eq!(release_at(&mut release_accounts(released), NOW), rule(EscrowError::InvalidStatus));
    assert_eq!(refund_at(&mut refund_accounts(released), after), rule(EscrowError::InvalidStatus));
    assert_eq!(
        deposit(&deposit_accounts(released), PAYMENT_ID),
        rule(EscrowError::InvalidStatus)
    );
    assert_eq!(
        cancel_pending(&mut cancel_accounts(released), PAYMENT_ID),
        rule(EscrowError::InvalidStatus)
    );

    let mut back = refund_accounts(funded_at(NOW));
    refund_at(&mut back, after).unwrap();
    let refunded = back.escrow;
    assert_eq!(release_at(&mut release_accounts(refunded), NOW), rule(EscrowError::InvalidStatus));
    assert_eq!(refund_at(&mut refund_accounts(refunded), after), rule(EscrowError::InvalidStatus));
}

#[test]
fn release_and_refund_meet_at_the_deadline() {
    let escrow = funded_at(NOW);
    let deadline = NOW + WINDOW + GRACE;
    for now in [i64::MIN, NOW, deadline - 1, deadline, deadline + 1, i64::MAX] {
        let released = release_at(&mut release_accounts(escrow), now).is_ok();
        let refunded = refund_at(&mut refund_accounts(escrow), now).is_ok();
        assert!(released != refunded);
        assert_eq!(released, now <= deadline);
    }
}

#[test]
fn terms_survive_deposit_and_payout() {
    let created = pending().data;
    let funded = funded_at(NOW).data;
    let mut ctx = release_accounts(funded_at(NOW));
    release_at(&mut ctx, NOW).unwrap();
    for escrow in [funded, ctx.escrow.data] {
        assert_eq!(escrow.payment_id, created.payment_id);
        assert_eq!(escrow.merchant, created.merchant);
        assert_eq!(escrow.amount, created.amount);
        assert_eq!(escrow.payment_window, created.payment_window);
        assert_eq!(escrow.grace_period, created.grace_period);
        assert_eq!(escrow.bump, created.bump);
        assert_eq!(escrow.depositor, customer());
        assert_eq!(escrow.expiry, NOW + WINDOW);
    }
}

#[test]
fn what_came_in_goes_out_once() {
    let paying = deposit_accounts(pending());
    let paid_in = deposit(&paying, PAYMENT_ID).unwrap().transfer();
    let payout = release_at(&mut release_accounts(funded_at(NOW)), NOW).unwrap().transfer;
    assert_eq!(payout.amount, paid_in.amount);
    assert_eq!(payout.from, paid_in.to);
    let refund = refund_at(&mut refund_accounts(funded_at(NOW)), NOW + 100).unwrap().transfer;
    assert_eq!(refund.amount, paid_in.amount);
    assert_eq!(refund.from, paid_in.to);
    assert_eq!(refund.to, paid_in.from);
}

// The clock, which cannot be read outside the runtime

#[test]
fn unreadable_clock_is_reported() {
    let code = u64::from(ProgramError::UnsupportedSysvar);

    let progress = deposit(&deposit_accounts(pending()), PAYMENT_ID).unwrap();
    assert_eq!(complete_deposit(progress), Err(InstructionError::Clock(code)));

    let mut ctx = release_accounts(funded_at(NOW));
    assert_eq!(release(&mut ctx, PAYMENT_ID), Err(InstructionError::Clock(code)));
    assert_eq!(ctx.escrow, funded_at(NOW));

    let mut ctx = refund_accounts(funded_at(NOW));
    assert_eq!(refund_after_expiry(&mut ctx, PAYMENT_ID), Err(InstructionError::Clock(code)));
    assert_eq!(ctx.escrow, funded_at(NOW));
}

#[test]
fn other_refusals_come_before_the_clock() {
    let mut ctx = release_accounts(pending());
    assert_eq!(release(&mut ctx, PAYMENT_ID), rule(EscrowError::InvalidStatus));
    let mut ctx = release_accounts(funded_at(NOW));
    ctx.admin = signer(stranger());
    assert_eq!(release(&mut ctx, PAYMENT_ID), rule(EscrowError::UnauthorizedAdmin));
    let mut ctx = refund_accounts(pending());
    assert_eq!(refund_after_expiry(&mut ctx, PAYMENT_ID), rule(EscrowError::InvalidStatus));
}

#[test]
fn messages_are_those_shown_to_users() {
    for (error, message) in [
        (EscrowError::InvalidStatus, "Escrow is not in the required status for this action"),
        (EscrowError::InvalidAmount, "Amount must be greater than zero"),
        (EscrowError::InvalidBounds, "Configuration bounds are invalid"),
        (
            EscrowError::PaymentWindowOutOfBounds,
            "Payment window is outside the configured bounds",
        ),
        (EscrowError::GracePeriodOutOfBounds, "Grace period is outside the configured bounds"),
        (
            EscrowError::ReleaseWindowPassed,
            "The release window has passed; funds can only be refunded now",
        ),
        (
            EscrowError::StillInReleaseWindow,
            "Still within the release window; refund not yet available",
        ),
        (EscrowError::UnauthorizedAdmin, "Only the configured admin may release funds"),
        (EscrowError::UnauthorizedMerchant, "Only the recorded merchant may perform this action"),
        (
            EscrowError::WrongMerchant,
            "Provided merchant token account does not match the recorded merchant",
        ),
        (
            EscrowError::WrongDepositor,
            "Provided token account does not match the recorded depositor",
        ),
        (EscrowError::WrongMint, "Provided token account uses the wrong mint"),
        (EscrowError::MathOverflow, "Arithmetic overflow"),
    ] {
        assert_eq!(error.message(), message);
    }
}
