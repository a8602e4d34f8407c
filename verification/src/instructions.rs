//! The six instructions.
//!
//! Each comes in two forms. The one named `.._with` is given the derived
//! addresses and the clock reading; the other one obtains them itself. A
//! refused instruction changes nothing.

use vstd::prelude::*;

use crate::accounts::{
    derive_addresses, derived_addresses, CancelPending, ConfigAccount, CreateEscrow, Deposit,
    DerivedAddresses, DerivedAddressesView, EscrowAccount, InitializeConfig, RefundAfterExpiry,
    Release, TokenAccount, VaultSlot,
};
use crate::address::{
    associated_token_address, config_address, derive_associated_token_address,
    derive_config_address, escrow_address, find_config_address, find_escrow_address, found_bytes,
    id, key_bytes, new_config_address, new_escrow_address, program_id_bytes,
};
use crate::clock::{is_reading, read};
use crate::effects::{
    CloseTokenAccount, EscrowSigner, NewRecord, NewVault, RecordSigner, TokenTransfer,
};
use crate::error::{EscrowError, InstructionError};
use crate::events::{
    ConfigInitialized, EscrowCancelled, EscrowCreated, EscrowFunded, EscrowRefunded, EscrowReleased,
};
use crate::pubkey::{zero_bytes, Pubkey};
use crate::state::{Config, Escrow, EscrowStatus};

verus! {

/// Whether a sum fits the type in which times are kept.
pub open spec fn is_time(t: int) -> bool {
    i64::MIN <= t <= i64::MAX
}

// ---------------------------------------------------------------------------
// initialize_config
// ---------------------------------------------------------------------------

/// What [`initialize_config`] writes.
pub open spec fn new_config(
    admin: Pubkey,
    usdc_mint: Pubkey,
    payment_window: (i64, i64),
    grace_period: (i64, i64),
    bump: u8,
) -> Config {
    Config {
        admin,
        usdc_mint,
        min_payment_window: payment_window.0,
        max_payment_window: payment_window.1,
        min_grace_period: grace_period.0,
        max_grace_period: grace_period.1,
        bump,
    }
}

/// An accepted setup: create the config account, which then holds the record.
#[derive(Clone, Copy, Debug, PartialEq, Eq)]
pub struct ConfigSetup {
    pub create: NewRecord,
    pub event: ConfigInitialized,
}

/// What [`initialize_config`] does, given where the config is to be created:
/// it writes a well-formed config to an account that was not in use, or it
/// names the first thing that is wrong.
pub open spec fn initialize_config_effect(
    pre: InitializeConfig,
    post: InitializeConfig,
    admin: Pubkey,
    payment_window: (i64, i64),
    grace_period: (i64, i64),
    found: Option<(Seq<u8>, u8)>,
    r: Result<ConfigSetup, InstructionError>,
) -> bool {
    match pre.accounts_bump(found) {
        Err(e) => r == Err::<ConfigSetup, _>(e) && post == pre,
        Ok(bump) => {
            let data = new_config(admin, pre.usdc_mint, payment_window, grace_period, bump);
            if data.wf() {
                &&& r matches Ok(setup)
                &&& setup.event == ConfigInitialized { admin, usdc_mint: pre.usdc_mint }
                &&& setup.create.account == pre.config.key
                &&& setup.create.payer == pre.payer.key
                &&& setup.create.space == Config::LEN
                &&& setup.create.owner@ == program_id_bytes()
                &&& setup.create.signer == RecordSigner::Config(bump)
                &&& post == InitializeConfig {
                    config: ConfigAccount { in_use: true, data, ..pre.config },
                    ..pre
                }
            } else {
                &&& r == Err::<ConfigSetup, _>(
                    InstructionError::Escrow(EscrowError::InvalidBounds),
                )
                &&& post == pre
            }
        },
    }
}

/// [`initialize_config`], given where the config is to be created.
pub fn initialize_config_with(
    ctx: &mut InitializeConfig,
    admin: Pubkey,
    min_payment_window: i64,
    max_payment_window: i64,
    min_grace_period: i64,
    max_grace_period: i64,
    found: Option<(Pubkey, u8)>,
) -> (r: Result<ConfigSetup, InstructionError>)
    ensures
        initialize_config_effect(
            *old(ctx),
            *final(ctx),
            admin,
            (min_payment_window, max_payment_window),
            (min_grace_period, max_grace_period),
            found_bytes(found),
            r,
        ),
{
    let bump: u8 = ctx.check_accounts(&found)?;
    if !(min_payment_window > 0) {
        return Err(InstructionError::Escrow(EscrowError::InvalidBounds));
    }
    if !(max_payment_window >= min_payment_window) {
        return Err(InstructionError::Escrow(EscrowError::InvalidBounds));
    }
    if !(min_grace_period > 0) {
        return Err(InstructionError::Escrow(EscrowError::InvalidBounds));
    }
    if !(max_grace_period >= min_grace_period) {
        return Err(InstructionError::Escrow(EscrowError::InvalidBounds));
    }
    ctx.config.in_use = true;
    ctx.config.data = Config {
        admin,
        usdc_mint: ctx.usdc_mint,
        min_payment_window,
        max_payment_window,
        min_grace_period,
        max_grace_period,
        bump,
    };
    Ok(
        ConfigSetup {
            create: NewRecord {
                account: ctx.config.key,
                payer: ctx.payer.key,
                space: Config::LEN,
                owner: id(),
                signer: RecordSigner::Config(bump),
            },
            event: ConfigInitialized { admin, usdc_mint: ctx.usdc_mint },
        },
    )
}

/// One-time setup, refused once the config is there. Sets the key that may
/// release funds, the accepted stablecoin, and the bounds within which the
/// timing of each escrow must lie.
pub fn initialize_config(
    ctx: &mut InitializeConfig,
    admin: Pubkey,
    min_payment_window: i64,
    max_payment_window: i64,
    min_grace_period: i64,
    max_grace_period: i64,
) -> (r: Result<ConfigSetup, InstructionError>)
    ensures
        initialize_config_effect(
            *old(ctx),
            *final(ctx),
            admin,
            (min_payment_window, max_payment_window),
            (min_grace_period, max_grace_period),
            new_config_address(),
            r,
        ),
        r is Ok ==> config_address(final(ctx).config.data.bump) == Some(final(ctx).config.key@),
{
    let found = find_config_address();
    initialize_config_with(
        ctx,
        admin,
        min_payment_window,
        max_payment_window,
        min_grace_period,
        max_grace_period,
        found,
    )
}

// ---------------------------------------------------------------------------
// create_escrow
// ---------------------------------------------------------------------------

/// The rules on the terms of a new escrow: the first one that they break.
pub open spec fn terms_refusal(
    config: Config,
    amount: u64,
    payment_window: i64,
    grace_period: i64,
) -> Option<EscrowError> {
    if amount == 0 {
        Some(EscrowError::InvalidAmount)
    } else if !(config.min_payment_window <= payment_window <= config.max_payment_window) {
        Some(EscrowError::PaymentWindowOutOfBounds)
    } else if !(config.min_grace_period <= grace_period <= config.max_grace_period) {
        Some(EscrowError::GracePeriodOutOfBounds)
    } else {
        None
    }
}

/// Whether `escrow` is the unfunded escrow with the given terms.
pub open spec fn is_new_escrow(
    escrow: Escrow,
    payment_id: [u8; 32],
    merchant: Pubkey,
    amount: u64,
    payment_window: i64,
    grace_period: i64,
    bump: u8,
) -> bool {
    &&& escrow.payment_id == payment_id
    &&& escrow.depositor@ == zero_bytes()
    &&& escrow.merchant == merchant
    &&& escrow.amount == amount
    &&& escrow.payment_window == payment_window
    &&& escrow.grace_period == grace_period
    &&& escrow.expiry == 0
    &&& escrow.status == EscrowStatus::Pending
    &&& escrow.bump == bump
}

/// An accepted creation: create the escrow account, which then holds the
/// record, and its vault. No funds move.
#[derive(Clone, Copy, Debug, PartialEq, Eq)]
pub struct EscrowOpening {
    pub create: NewRecord,
    pub create_vault: NewVault,
    pub event: EscrowCreated,
}

/// What [`create_escrow`] does, given where the escrow and the vault are to be
/// created and where the config must be.
pub open spec fn create_escrow_effect(
    pre: CreateEscrow,
    post: CreateEscrow,
    payment_id: [u8; 32],
    merchant: Pubkey,
    amount: u64,
    payment_window: i64,
    grace_period: i64,
    found: Option<(Seq<u8>, u8)>,
    vault_address: Option<Seq<u8>>,
    config_address: Option<Seq<u8>>,
    r: Result<EscrowOpening, InstructionError>,
) -> bool {
    match pre.accounts_bump(found, vault_address, config_address) {
        Err(e) => r == Err::<EscrowOpening, _>(e) && post == pre,
        Ok(bump) => match terms_refusal(pre.config.data, amount, payment_window, grace_period) {
            Some(e) => r == Err::<EscrowOpening, _>(InstructionError::Escrow(e)) && post == pre,
            None => {
                &&& r matches Ok(opening)
                &&& opening.event == EscrowCreated { payment_id, merchant, amount }
                &&& opening.create.account == pre.escrow.key
                &&& opening.create.payer == pre.payer.key
                &&& opening.create.space == Escrow::LEN
                &&& opening.create.owner@ == program_id_bytes()
                &&& opening.create.signer == RecordSigner::Escrow(
                    EscrowSigner { payment_id, bump },
                )
                &&& opening.create_vault == NewVault {
                    account: pre.vault.key,
                    payer: pre.payer.key,
                    authority: pre.escrow.key,
                    mint: pre.config.data.usdc_mint,
                }
                &&& is_new_escrow(
                    post.escrow.data,
                    payment_id,
                    merchant,
                    amount,
                    payment_window,
                    grace_period,
                    bump,
                )
                &&& post == CreateEscrow {
                    escrow: EscrowAccount { in_use: true, data: post.escrow.data, ..pre.escrow },
                    vault: VaultSlot { in_use: true, ..pre.vault },
                    ..pre
                }
            },
        },
    }
}

/// [`create_escrow`], given where the escrow and the vault are to be created
/// and where the config must be.
pub fn create_escrow_with(
    ctx: &mut CreateEscrow,
    payment_id: [u8; 32],
    merchant: Pubkey,
    amount: u64,
    payment_window: i64,
    grace_period: i64,
    found: Option<(Pubkey, u8)>,
    vault_address: Option<Pubkey>,
    config_address: Option<Pubkey>,
) -> (r: Result<EscrowOpening, InstructionError>)
    ensures
        create_escrow_effect(
            *old(ctx),
            *final(ctx),
            payment_id,
            merchant,
            amount,
            payment_window,
            grace_period,
            found_bytes(found),
            key_bytes(vault_address),
            key_bytes(config_address),
            r,
        ),
{
    let bump: u8 = ctx.check_accounts(&found, &vault_address, &config_address)?;
    let config = ctx.config.data;
    if !(amount > 0) {
        return Err(InstructionError::Escrow(EscrowError::InvalidAmount));
    }
    if !(payment_window >= config.min_payment_window && payment_window
        <= config.max_payment_window) {
        return Err(InstructionError::Escrow(EscrowError::PaymentWindowOutOfBounds));
    }
    if !(grace_period >= config.min_grace_period && grace_period <= config.max_grace_period) {
        return Err(InstructionError::Escrow(EscrowError::GracePeriodOutOfBounds));
    }
    ctx.escrow.in_use = true;
    ctx.vault.in_use = true;
    ctx.escrow.data = Escrow {
        payment_id,
        depositor: Pubkey::default(),
        merchant,
        amount,
        payment_window,
        grace_period,
        expiry: 0,
        status: EscrowStatus::Pending,
        bump,
    };
    Ok(
        EscrowOpening {
            create: NewRecord {
                account: ctx.escrow.key,
                payer: ctx.payer.key,
                space: Escrow::LEN,
                owner: id(),
                signer: RecordSigner::Escrow(EscrowSigner { payment_id, bump }),
            },
            create_vault: NewVault {
                account: ctx.vault.key,
                payer: ctx.payer.key,
                authority: ctx.escrow.key,
                mint: config.usdc_mint,
            },
            event: EscrowCreated { payment_id, merchant, amount },
        },
    )
}

/// Opens the escrow of a payment, with a vault of its own for the accepted
/// stablecoin. Refused while the payment has an escrow. No funds move.
pub fn create_escrow(
    ctx: &mut CreateEscrow,
    payment_id: [u8; 32],
    merchant: Pubkey,
    amount: u64,
    payment_window: i64,
    grace_period: i64,
) -> (r: Result<EscrowOpening, InstructionError>)
    ensures
        create_escrow_effect(
            *old(ctx),
            *final(ctx),
            payment_id,
            merchant,
            amount,
            payment_window,
            grace_period,
            new_escrow_address(payment_id@),
            associated_token_address(old(ctx).escrow.key@, old(ctx).usdc_mint@),
            config_address(old(ctx).config.data.bump),
            r,
        ),
        r is Ok ==> escrow_address(payment_id@, final(ctx).escrow.data.bump) == Some(
            final(ctx).escrow.key@,
        ),
        r matches Ok(opening) ==> {
            &&& associated_token_address(
                final(ctx).escrow.key@,
                final(ctx).config.data.usdc_mint@,
            ) == Some(opening.create_vault.account@)
            &&& opening.create_vault.authority == final(ctx).escrow.key
            &&& opening.create_vault.mint == final(ctx).config.data.usdc_mint
        },
{
    let found = find_escrow_address(&payment_id);
    let vault = derive_associated_token_address(&ctx.escrow.key, &ctx.usdc_mint);
    let config = derive_config_address(ctx.config.data.bump);
    create_escrow_with(
        ctx,
        payment_id,
        merchant,
        amount,
        payment_window,
        grace_period,
        found,
        vault,
        config,
    )
}

// ---------------------------------------------------------------------------
// deposit
// ---------------------------------------------------------------------------

/// A deposit that has been admitted and waits for its transfer. Only
/// [`deposit`] makes one, and [`complete_deposit`] uses it up.
#[derive(Debug, PartialEq, Eq)]
pub struct DepositInProgress {
    ctx: Deposit,
}

impl View for DepositInProgress {
    type V = Deposit;

    /// The accounts of the deposit.
    closed spec fn view(&self) -> Deposit {
        self.ctx
    }
}

impl DepositInProgress {
    /// Only a deposit into a pending escrow has been admitted.
    #[verifier::type_invariant]
    spec fn admitted(self) -> bool {
        &&& self.ctx.escrow.in_use
        &&& self.ctx.escrow.data.status == EscrowStatus::Pending
    }

    /// The transfer to make: it pulls the payment from the customer into the
    /// vault.
    pub fn transfer(&self) -> (r: TokenTransfer)
        ensures
            r == deposit_transfer(self@),
    {
        TokenTransfer {
            from: self.ctx.depositor_token_account.key,
            to: self.ctx.vault.key,
            authority: self.ctx.depositor.key,
            amount: self.ctx.escrow.data.amount,
            signer: None,
        }
    }
}

/// Why a deposit is not admitted.
pub open spec fn deposit_refusal(
    ctx: Deposit,
    config_address: Option<Seq<u8>>,
    addresses: DerivedAddressesView,
) -> Option<InstructionError> {
    if ctx.accounts_refusal(config_address, addresses) is Some {
        ctx.accounts_refusal(config_address, addresses)
    } else if ctx.escrow.data.status != EscrowStatus::Pending {
        Some(InstructionError::Escrow(EscrowError::InvalidStatus))
    } else {
        None
    }
}

/// The transfer of an admitted deposit: the escrow's amount goes from the
/// signer's token account into the vault.
pub open spec fn deposit_transfer(ctx: Deposit) -> TokenTransfer {
    TokenTransfer {
        from: ctx.depositor_token_account.key,
        to: ctx.vault.key,
        authority: ctx.depositor.key,
        amount: ctx.escrow.data.amount,
        signer: None,
    }
}

/// What [`deposit`] decides, given where the accounts must be: the deposit of
/// these accounts is in progress, or why not.
pub open spec fn deposit_result(
    ctx: Deposit,
    config_address: Option<Seq<u8>>,
    addresses: DerivedAddressesView,
) -> Result<Deposit, InstructionError> {
    match deposit_refusal(ctx, config_address, addresses) {
        Some(e) => Err(e),
        None => Ok(ctx),
    }
}

/// The accounts of the deposit that is in progress, if one is.
pub open spec fn in_progress(r: Result<DepositInProgress, InstructionError>) -> Result<
    Deposit,
    InstructionError,
> {
    match r {
        Ok(pending) => Ok(pending@),
        Err(e) => Err(e),
    }
}

/// [`deposit`], given where the accounts must be.
pub fn deposit_with(
    ctx: &Deposit,
    config_address: Option<Pubkey>,
    addresses: DerivedAddresses,
) -> (r: Result<DepositInProgress, InstructionError>)
    ensures
        in_progress(r) == deposit_result(*ctx, key_bytes(config_address), addresses@),
{
    ctx.check_accounts(&config_address, &addresses)?;
    if ctx.escrow.data.status != EscrowStatus::Pending {
        return Err(InstructionError::Escrow(EscrowError::InvalidStatus));
    }
    Ok(DepositInProgress { ctx: *ctx })
}

/// The customer pays the accepted stablecoin into the vault. Admits the
/// deposit and says which transfer to make; [`complete_deposit`] follows once
/// it has been made.
pub fn deposit(ctx: &Deposit, payment_id: [u8; 32]) -> (r: Result<
    DepositInProgress,
    InstructionError,
>)
    ensures
        in_progress(r) == deposit_result(
            *ctx,
            config_address(ctx.config.data.bump),
            derived_addresses(payment_id@, ctx.escrow, ctx.config.data.usdc_mint),
        ),
{
    let config = derive_config_address(ctx.config.data.bump);
    let addresses = derive_addresses(&payment_id, &ctx.escrow, &ctx.config.data.usdc_mint);
    deposit_with(ctx, config, addresses)
}

/// Why a deposit cannot be recorded although the transfer was made.
pub open spec fn complete_deposit_refusal(ctx: Deposit, clock: Result<i64, u64>) -> Option<
    InstructionError,
> {
    match clock {
        Err(code) => Some(InstructionError::Clock(code)),
        Ok(now) => if !is_time(now + ctx.escrow.data.payment_window) {
            Some(InstructionError::Escrow(EscrowError::MathOverflow))
        } else {
            None
        },
    }
}

/// An escrow once `depositor` has paid and the window has begun to run.
pub open spec fn funded(escrow: Escrow, depositor: Pubkey, expiry: i64) -> Escrow {
    Escrow { depositor, expiry, status: EscrowStatus::Funded, ..escrow }
}

/// A completed deposit: the escrow as it is now to be stored.
#[derive(Clone, Copy, Debug, PartialEq, Eq)]
pub struct FundedEscrow {
    pub escrow: EscrowAccount,
    pub event: EscrowFunded,
}

/// What [`complete_deposit`] returns at the given clock reading.
pub open spec fn complete_deposit_result(ctx: Deposit, clock: Result<i64, u64>) -> Result<
    FundedEscrow,
    InstructionError,
> {
    match complete_deposit_refusal(ctx, clock) {
        Some(e) => Err(e),
        None => {
            let escrow = ctx.escrow.data;
            let expiry = (clock->Ok_0 + escrow.payment_window) as i64;
            Ok(
                FundedEscrow {
                    escrow: EscrowAccount {
                        data: funded(escrow, ctx.depositor.key, expiry),
                        ..ctx.escrow
                    },
                    event: EscrowFunded {
                        payment_id: escrow.payment_id,
                        depositor: ctx.depositor.key,
                        expiry,
                    },
                },
            )
        },
    }
}

/// [`complete_deposit`], given the clock reading.
pub fn complete_deposit_with(pending: DepositInProgress, clock: Result<i64, u64>) -> (r: Result<
    FundedEscrow,
    InstructionError,
>)
    ensures
        pending@.escrow.data.status == EscrowStatus::Pending,
        pending@.escrow.in_use,
        r == complete_deposit_result(pending@, clock),
{
    proof {
        use_type_invariant(&pending);
    }
    let ctx = pending.ctx;
    let now: i64 = match clock {
        Ok(now) => now,
        Err(code) => return Err(InstructionError::Clock(code)),
    };
    let expiry: i64 = match now.checked_add(ctx.escrow.data.payment_window) {
        Some(expiry) => expiry,
        None => return Err(InstructionError::Escrow(EscrowError::MathOverflow)),
    };
    let mut escrow = ctx.escrow;
    escrow.data.depositor = ctx.depositor.key;
    escrow.data.expiry = expiry;
    escrow.data.status = EscrowStatus::Funded;
    Ok(
        FundedEscrow {
            escrow,
            event: EscrowFunded {
                payment_id: escrow.data.payment_id,
                depositor: ctx.depositor.key,
                expiry,
            },
        },
    )
}

/// Records a deposit whose transfer has been made: who paid, until when the
/// payment can be confirmed, and that the escrow holds funds.
pub fn complete_deposit(pending: DepositInProgress) -> (r: Result<FundedEscrow, InstructionError>)
    ensures
        pending@.escrow.data.status == EscrowStatus::Pending,
        pending@.escrow.in_use,
        exists|clock: Result<i64, u64>| #[trigger]
            is_reading(clock) && r == complete_deposit_result(pending@, clock),
{
    let clock = read();
    complete_deposit_with(pending, clock)
}

// ---------------------------------------------------------------------------
// release
// ---------------------------------------------------------------------------

/// An accepted release: pay the merchant, then close the vault.
#[derive(Clone, Copy, Debug, PartialEq, Eq)]
pub struct ReleasePayout {
    pub transfer: TokenTransfer,
    /// `None` where tokens are left that did not come from the deposit: the
    /// vault stays open with them.
    pub close_vault: Option<CloseTokenAccount>,
    pub event: EscrowReleased,
}

/// Why a release is refused at the given clock reading.
pub open spec fn release_refusal(
    ctx: Release,
    config_address: Option<Seq<u8>>,
    addresses: DerivedAddressesView,
    clock: Result<i64, u64>,
) -> Option<InstructionError> {
    let escrow = ctx.escrow.data;
    if ctx.accounts_refusal(config_address, addresses) is Some {
        ctx.accounts_refusal(config_address, addresses)
    } else if escrow.status != EscrowStatus::Funded {
        Some(InstructionError::Escrow(EscrowError::InvalidStatus))
    } else {
        match clock {
            Err(code) => Some(InstructionError::Clock(code)),
            Ok(now) => if !is_time(escrow.release_deadline()) {
                Some(InstructionError::Escrow(EscrowError::MathOverflow))
            } else if now > escrow.release_deadline() {
                Some(InstructionError::Escrow(EscrowError::ReleaseWindowPassed))
            } else if ctx.merchant_token_account.key == ctx.vault.key {
                Some(InstructionError::PayoutIntoVault)
            } else {
                None
            },
        }
    }
}

/// The close of a vault after a payout of `amount`: only where nothing is left.
pub open spec fn close_if_empty(vault: TokenAccount, amount: u64, close: CloseTokenAccount) -> Option<
    CloseTokenAccount,
> {
    if vault.amount == amount {
        Some(close)
    } else {
        None
    }
}

/// What an accepted release pays out: the whole amount to the merchant's token
/// account, which also receives the rent of a vault that is then empty.
pub open spec fn release_payout(ctx: Release, payment_id: [u8; 32]) -> ReleasePayout {
    let escrow = ctx.escrow.data;
    let signer = EscrowSigner { payment_id, bump: escrow.bump };
    ReleasePayout {
        transfer: TokenTransfer {
            from: ctx.vault.key,
            to: ctx.merchant_token_account.key,
            authority: ctx.escrow.key,
            amount: escrow.amount,
            signer: Some(signer),
        },
        close_vault: close_if_empty(
            ctx.vault,
            escrow.amount,
            CloseTokenAccount {
                account: ctx.vault.key,
                destination: ctx.merchant_token_account.key,
                authority: ctx.escrow.key,
                signer,
            },
        ),
        event: EscrowReleased { payment_id, merchant: escrow.merchant, amount: escrow.amount },
    }
}

/// An account whose escrow has moved to another status.
pub open spec fn with_status(account: EscrowAccount, status: EscrowStatus) -> EscrowAccount {
    EscrowAccount { data: Escrow { status, ..account.data }, ..account }
}

/// What [`release`] does at the given clock reading.
pub open spec fn release_effect(
    pre: Release,
    post: Release,
    payment_id: [u8; 32],
    config_address: Option<Seq<u8>>,
    addresses: DerivedAddressesView,
    clock: Result<i64, u64>,
    r: Result<ReleasePayout, InstructionError>,
) -> bool {
    match release_refusal(pre, config_address, addresses, clock) {
        Some(e) => r == Err::<ReleasePayout, InstructionError>(e) && post == pre,
        None => {
            &&& r == Ok::<ReleasePayout, InstructionError>(release_payout(pre, payment_id))
            &&& post == Release { escrow: with_status(pre.escrow, EscrowStatus::Released), ..pre }
        },
    }
}

fn when_empty(vault: &TokenAccount, amount: u64, close: CloseTokenAccount) -> (r: Option<
    CloseTokenAccount,
>)
    ensures
        r == close_if_empty(*vault, amount, close),
{
    if vault.amount == amount {
        Some(close)
    } else {
        None
    }
}

/// [`release`], given where the accounts must be and the clock reading.
pub fn release_with(
    ctx: &mut Release,
    payment_id: [u8; 32],
    config_address: Option<Pubkey>,
    addresses: DerivedAddresses,
    clock: Result<i64, u64>,
) -> (r: Result<ReleasePayout, InstructionError>)
    ensures
        release_effect(
            *old(ctx),
            *final(ctx),
            payment_id,
            key_bytes(config_address),
            addresses@,
            clock,
            r,
        ),
{
    ctx.check_accounts(&config_address, &addresses)?;
    let escrow = ctx.escrow.data;
    if escrow.status != EscrowStatus::Funded {
        return Err(InstructionError::Escrow(EscrowError::InvalidStatus));
    }
    let now: i64 = match clock {
        Ok(now) => now,
        Err(code) => return Err(InstructionError::Clock(code)),
    };
    let release_deadline: i64 = match escrow.expiry.checked_add(escrow.grace_period) {
        Some(deadline) => deadline,
        None => return Err(InstructionError::Escrow(EscrowError::MathOverflow)),
    };
    if !(now <= release_deadline) {
        return Err(InstructionError::Escrow(EscrowError::ReleaseWindowPassed));
    }
    if ctx.merchant_token_account.key == ctx.vault.key {
        return Err(InstructionError::PayoutIntoVault);
    }
    let signer = EscrowSigner { payment_id, bump: escrow.bump };
    ctx.escrow.data.status = EscrowStatus::Released;
    Ok(
        ReleasePayout {
            transfer: TokenTransfer {
                from: ctx.vault.key,
                to: ctx.merchant_token_account.key,
                authority: ctx.escrow.key,
                amount: escrow.amount,
                signer: Some(signer),
            },
            close_vault: when_empty(
                &ctx.vault,
                escrow.amount,
                CloseTokenAccount {
                    account: ctx.vault.key,
                    destination: ctx.merchant_token_account.key,
                    authority: ctx.escrow.key,
                    signer,
                },
            ),
            event: EscrowReleased { payment_id, merchant: escrow.merchant, amount: escrow.amount },
        },
    )
}

/// The admin releases the funds to the merchant that was recorded at creation,
/// while the escrow is funded and the payment window and the grace period have
/// not passed. Tokens that someone else sent to the vault do not stand in the
/// way; they stay in it.
pub fn release(ctx: &mut Release, payment_id: [u8; 32]) -> (r: Result<
    ReleasePayout,
    InstructionError,
>)
    ensures
        exists|clock: Result<i64, u64>| #[trigger]
            is_reading(clock) && release_effect(
                *old(ctx),
                *final(ctx),
                payment_id,
                config_address(old(ctx).config.data.bump),
                derived_addresses(
                    payment_id@,
                    old(ctx).escrow,
                    old(ctx).config.data.usdc_mint,
                ),
                clock,
                r,
            ),
{
    let config = derive_config_address(ctx.config.data.bump);
    let addresses = derive_addresses(&payment_id, &ctx.escrow, &ctx.config.data.usdc_mint);
    let clock = read();
    release_with(ctx, payment_id, config, addresses, clock)
}

// ---------------------------------------------------------------------------
// refund_after_expiry
// ---------------------------------------------------------------------------

/// An accepted refund: pay the customer back, then close the vault.
#[derive(Clone, Copy, Debug, PartialEq, Eq)]
pub struct RefundPayout {
    pub transfer: TokenTransfer,
    /// `None` where tokens are left that did not come from the deposit: the
    /// vault stays open with them.
    pub close_vault: Option<CloseTokenAccount>,
    pub event: EscrowRefunded,
}

/// Why a refund is refused at the given clock reading.
pub open spec fn refund_refusal(
    ctx: RefundAfterExpiry,
    config_address: Option<Seq<u8>>,
    addresses: DerivedAddressesView,
    clock: Result<i64, u64>,
) -> Option<InstructionError> {
    let escrow = ctx.escrow.data;
    if ctx.accounts_refusal(config_address, addresses) is Some {
        ctx.accounts_refusal(config_address, addresses)
    } else if escrow.status != EscrowStatus::Funded {
        Some(InstructionError::Escrow(EscrowError::InvalidStatus))
    } else {
        match clock {
            Err(code) => Some(InstructionError::Clock(code)),
            Ok(now) => if !is_time(escrow.release_deadline()) {
                Some(InstructionError::Escrow(EscrowError::MathOverflow))
            } else if now <= escrow.release_deadline() {
                Some(InstructionError::Escrow(EscrowError::StillInReleaseWindow))
            } else if ctx.depositor_token_account.owner != escrow.depositor {
                Some(InstructionError::Escrow(EscrowError::WrongDepositor))
            } else {
                None
            },
        }
    }
}

/// What an accepted refund pays out: the whole amount to the depositor's token
/// account, which also receives the rent of a vault that is then empty.
pub open spec fn refund_payout(ctx: RefundAfterExpiry, payment_id: [u8; 32]) -> RefundPayout {
    let escrow = ctx.escrow.data;
    let signer = EscrowSigner { payment_id, bump: escrow.bump };
    RefundPayout {
        transfer: TokenTransfer {
            from: ctx.vault.key,
            to: ctx.depositor_token_account.key,
            authority: ctx.escrow.key,
            amount: escrow.amount,
            signer: Some(signer),
        },
        close_vault: close_if_empty(
            ctx.vault,
            escrow.amount,
            CloseTokenAccount {
                account: ctx.vault.key,
                destination: ctx.depositor_token_account.key,
                authority: ctx.escrow.key,
                signer,
            },
        ),
        event: EscrowRefunded { payment_id, depositor: escrow.depositor, amount: escrow.amount },
    }
}

/// What [`refund_after_expiry`] does at the given clock reading.
pub open spec fn refund_effect(
    pre: RefundAfterExpiry,
    post: RefundAfterExpiry,
    payment_id: [u8; 32],
    config_address: Option<Seq<u8>>,
    addresses: DerivedAddressesView,
    clock: Result<i64, u64>,
    r: Result<RefundPayout, InstructionError>,
) -> bool {
    match refund_refusal(pre, config_address, addresses, clock) {
        Some(e) => r == Err::<RefundPayout, InstructionError>(e) && post == pre,
        None => {
            &&& r == Ok::<RefundPayout, InstructionError>(refund_payout(pre, payment_id))
            &&& post == RefundAfterExpiry {
                escrow: with_status(pre.escrow, EscrowStatus::Refunded),
                ..pre
            }
        },
    }
}

/// [`refund_after_expiry`], given where the accounts must be and the clock
/// reading.
pub fn refund_after_expiry_with(
    ctx: &mut RefundAfterExpiry,
    payment_id: [u8; 32],
    config_address: Option<Pubkey>,
    addresses: DerivedAddresses,
    clock: Result<i64, u64>,
) -> (r: Result<RefundPayout, InstructionError>)
    ensures
        refund_effect(
            *old(ctx),
            *final(ctx),
            payment_id,
            key_bytes(config_address),
            addresses@,
            clock,
            r,
        ),
{
    ctx.check_accounts(&config_address, &addresses)?;
    let escrow = ctx.escrow.data;
    if escrow.status != EscrowStatus::Funded {
        return Err(InstructionError::Escrow(EscrowError::InvalidStatus));
    }
    let now: i64 = match clock {
        Ok(now) => now,
        Err(code) => return Err(InstructionError::Clock(code)),
    };
    let release_deadline: i64 = match escrow.expiry.checked_add(escrow.grace_period) {
        Some(deadline) => deadline,
        None => return Err(InstructionError::Escrow(EscrowError::MathOverflow)),
    };
    if !(now > release_deadline) {
        return Err(InstructionError::Escrow(EscrowError::StillInReleaseWindow));
    }
    if ctx.depositor_token_account.owner != escrow.depositor {
        return Err(InstructionError::Escrow(EscrowError::WrongDepositor));
    }
    let signer = EscrowSigner { payment_id, bump: escrow.bump };
    ctx.escrow.data.status = EscrowStatus::Refunded;
    Ok(
        RefundPayout {
            transfer: TokenTransfer {
                from: ctx.vault.key,
                to: ctx.depositor_token_account.key,
                authority: ctx.escrow.key,
                amount: escrow.amount,
                signer: Some(signer),
            },
            close_vault: when_empty(
                &ctx.vault,
                escrow.amount,
                CloseTokenAccount {
                    account: ctx.vault.key,
                    destination: ctx.depositor_token_account.key,
                    authority: ctx.escrow.key,
                    signer,
                },
            ),
            event: EscrowRefunded {
                payment_id,
                depositor: escrow.depositor,
                amount: escrow.amount,
            },
        },
    )
}

/// Once the release window has closed, anyone may send the funds back to the
/// recorded depositor. Tokens that someone else sent to the vault do not stand
/// in the way; they stay in it.
pub fn refund_after_expiry(ctx: &mut RefundAfterExpiry, payment_id: [u8; 32]) -> (r: Result<
    RefundPayout,
    InstructionError,
>)
    ensures
        exists|clock: Result<i64, u64>| #[trigger]
            is_reading(clock) && refund_effect(
                *old(ctx),
                *final(ctx),
                payment_id,
                config_address(old(ctx).config.data.bump),
                derived_addresses(
                    payment_id@,
                    old(ctx).escrow,
                    old(ctx).config.data.usdc_mint,
                ),
                clock,
                r,
            ),
{
    let config = derive_config_address(ctx.config.data.bump);
    let addresses = derive_addresses(&payment_id, &ctx.escrow, &ctx.config.data.usdc_mint);
    let clock = read();
    refund_after_expiry_with(ctx, payment_id, config, addresses, clock)
}

// ---------------------------------------------------------------------------
// cancel_pending
// ---------------------------------------------------------------------------

/// An accepted cancellation: close the vault, then the escrow account itself.
#[derive(Clone, Copy, Debug, PartialEq, Eq)]
pub struct Cancellation {
    /// `None` where someone sent tokens to the vault without a deposit: it
    /// stays open with them, and its address in use.
    pub close_vault: Option<CloseTokenAccount>,
    /// The escrow account that goes away.
    pub close_escrow: Pubkey,
    /// Who receives the escrow account's rent.
    pub rent_to: Pubkey,
    pub event: EscrowCancelled,
}

/// Why a cancellation is refused.
pub open spec fn cancel_refusal(
    ctx: CancelPending,
    config_address: Option<Seq<u8>>,
    addresses: DerivedAddressesView,
) -> Option<InstructionError> {
    if ctx.accounts_refusal(config_address, addresses) is Some {
        ctx.accounts_refusal(config_address, addresses)
    } else if ctx.escrow.data.status != EscrowStatus::Pending {
        Some(InstructionError::Escrow(EscrowError::InvalidStatus))
    } else if ctx.merchant.key != ctx.escrow.data.merchant {
        Some(InstructionError::Escrow(EscrowError::UnauthorizedMerchant))
    } else {
        None
    }
}

/// What an accepted cancellation closes: the escrow and an empty vault, with the
/// rent of both going to the merchant.
pub open spec fn cancellation(ctx: CancelPending, payment_id: [u8; 32]) -> Cancellation {
    Cancellation {
        close_vault: close_if_empty(
            ctx.vault,
            0,
            CloseTokenAccount {
                account: ctx.vault.key,
                destination: ctx.merchant.key,
                authority: ctx.escrow.key,
                signer: EscrowSigner { payment_id, bump: ctx.escrow.data.bump },
            },
        ),
        close_escrow: ctx.escrow.key,
        rent_to: ctx.merchant.key,
        event: EscrowCancelled { payment_id },
    }
}

/// What [`cancel_pending`] does, given where the accounts must be. A cancelled
/// escrow leaves its address unused.
pub open spec fn cancel_effect(
    pre: CancelPending,
    post: CancelPending,
    payment_id: [u8; 32],
    config_address: Option<Seq<u8>>,
    addresses: DerivedAddressesView,
    r: Result<Cancellation, InstructionError>,
) -> bool {
    match cancel_refusal(pre, config_address, addresses) {
        Some(e) => r == Err::<Cancellation, InstructionError>(e) && post == pre,
        None => {
            &&& r == Ok::<Cancellation, InstructionError>(cancellation(pre, payment_id))
            &&& post == CancelPending {
                escrow: EscrowAccount { in_use: false, ..pre.escrow },
                ..pre
            }
        },
    }
}

/// [`cancel_pending`], given where the accounts must be.
pub fn cancel_pending_with(
    ctx: &mut CancelPending,
    payment_id: [u8; 32],
    config_address: Option<Pubkey>,
    addresses: DerivedAddresses,
) -> (r: Result<Cancellation, InstructionError>)
    ensures
        cancel_effect(
            *old(ctx),
            *final(ctx),
            payment_id,
            key_bytes(config_address),
            addresses@,
            r,
        ),
{
    ctx.check_accounts(&config_address, &addresses)?;
    let escrow = ctx.escrow.data;
    if escrow.status != EscrowStatus::Pending {
        return Err(InstructionError::Escrow(EscrowError::InvalidStatus));
    }
    if ctx.merchant.key != escrow.merchant {
        return Err(InstructionError::Escrow(EscrowError::UnauthorizedMerchant));
    }
    ctx.escrow.in_use = false;
    Ok(
        Cancellation {
            close_vault: when_empty(
                &ctx.vault,
                0,
                CloseTokenAccount {
                    account: ctx.vault.key,
                    destination: ctx.merchant.key,
                    authority: ctx.escrow.key,
                    signer: EscrowSigner { payment_id, bump: escrow.bump },
                },
            ),
            close_escrow: ctx.escrow.key,
            rent_to: ctx.merchant.key,
            event: EscrowCancelled { payment_id },
        },
    )
}

/// The merchant cancels an escrow that nobody has paid into and gets the rent
/// back.
pub fn cancel_pending(ctx: &mut CancelPending, payment_id: [u8; 32]) -> (r: Result<
    Cancellation,
    InstructionError,
>)
    ensures
        cancel_effect(
            *old(ctx),
            *final(ctx),
            payment_id,
            config_address(old(ctx).config.data.bump),
            derived_addresses(payment_id@, old(ctx).escrow, old(ctx).config.data.usdc_mint),
            r,
        ),
{
    let config = derive_config_address(ctx.config.data.bump);
    let addresses = derive_addresses(&payment_id, &ctx.escrow, &ctx.config.data.usdc_mint);
    cancel_pending_with(ctx, payment_id, config, addresses)
}

} // verus!
