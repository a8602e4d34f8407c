//! What each instruction accepts, does and refuses.
//!
//! The laws are stated on the accounts, the arguments and the results: when an
//! instruction succeeds, what it then records, orders and announces, and what
//! each refusal tells. A refused instruction changes nothing.

use vstd::prelude::*;

use crate::accounts::{
    CancelPending, CreateEscrow, Deposit, DerivedAddressesView, EscrowAccount, InitializeConfig,
    RefundAfterExpiry, Release, TokenAccount, VaultSlot,
};
use crate::address::program_id_bytes;
use crate::effects::RecordSigner;
use crate::error::{EscrowError, InstructionError};
use crate::instructions::{
    cancel_effect, complete_deposit_result, create_escrow_effect, deposit_result, deposit_transfer,
    in_progress, initialize_config_effect, refund_effect, release_effect, Cancellation,
    ConfigSetup, DepositInProgress, EscrowOpening, FundedEscrow, RefundPayout, ReleasePayout,
};
use crate::lifecycle::{is_history, law_history_keeps_address_and_terms, Call};
use crate::pubkey::Pubkey;
use crate::state::{Escrow, EscrowStatus};

verus! {

// ---------------------------------------------------------------------------
// Setup
// ---------------------------------------------------------------------------

/// The setup succeeds exactly when its accounts are in order and both ranges are
/// non-empty and positive, whoever is to be the admin and however long the
/// periods are.
pub proof fn law_setup_succeeds_exactly_when(
    pre: InitializeConfig,
    post: InitializeConfig,
    admin: Pubkey,
    payment_window: (i64, i64),
    grace_period: (i64, i64),
    found: Option<(Seq<u8>, u8)>,
    r: Result<ConfigSetup, InstructionError>,
)
    requires
        initialize_config_effect(
            pre,
            post,
            admin,
            payment_window,
            grace_period,
            found,
            r,
        ),
    ensures
        r is Ok <==> {
            &&& found matches Some(f) && f.0 == pre.config.key@
            &&& !pre.config.in_use
            &&& pre.config.is_writable
            &&& pre.payer.is_writable
            &&& 0 < payment_window.0 <= payment_window.1
            &&& 0 < grace_period.0 <= grace_period.1
        },
{
}

/// A setup records the admin, the mint and the bounds that were asked for, with
/// the bump that was found. It asks for the config's account to be created at the
/// payer's expense, and announces admin and mint. Nothing else changes.
pub proof fn law_setup_records_what_was_asked(
    pre: InitializeConfig,
    post: InitializeConfig,
    admin: Pubkey,
    payment_window: (i64, i64),
    grace_period: (i64, i64),
    found: Option<(Seq<u8>, u8)>,
    setup: ConfigSetup,
)
    requires
        initialize_config_effect(
            pre,
            post,
            admin,
            payment_window,
            grace_period,
            found,
            Ok(setup),
        ),
    ensures
        post.config.in_use,
        post.config.key == pre.config.key,
        post.config.is_writable == pre.config.is_writable,
        post.usdc_mint == pre.usdc_mint,
        post.payer == pre.payer,
        post.config.data.admin == admin,
        post.config.data.usdc_mint == pre.usdc_mint,
        post.config.data.min_payment_window == payment_window.0,
        post.config.data.max_payment_window == payment_window.1,
        post.config.data.min_grace_period == grace_period.0,
        post.config.data.max_grace_period == grace_period.1,
        found == Some((pre.config.key@, post.config.data.bump)),
        setup.event.admin == admin,
        setup.event.usdc_mint == pre.usdc_mint,
        setup.create.account == pre.config.key,
        setup.create.payer == pre.payer.key,
        setup.create.space == 8 + 2 * 32 + 4 * 8 + 1,
        setup.create.owner@ == program_id_bytes(),
        setup.create.signer == RecordSigner::Config(post.config.data.bump),
{
}

/// A refused setup changes nothing. It names what is wrong with the accounts, or
/// the bounds where the accounts are in order.
pub proof fn law_setup_refusals(
    pre: InitializeConfig,
    post: InitializeConfig,
    admin: Pubkey,
    payment_window: (i64, i64),
    grace_period: (i64, i64),
    found: Option<(Seq<u8>, u8)>,
    e: InstructionError,
)
    requires
        initialize_config_effect(
            pre,
            post,
            admin,
            payment_window,
            grace_period,
            found,
            Err(e),
        ),
    ensures
        post == pre,
        e == InstructionError::Escrow(EscrowError::InvalidBounds) <==> {
            &&& pre.accounts_bump(found) is Ok
            &&& !(0 < payment_window.0 <= payment_window.1 && 0 < grace_period.0
                <= grace_period.1)
        },
        pre.accounts_bump(found) matches Err(refusal) ==> e == refusal,
{
}

// ---------------------------------------------------------------------------
// Creation
// ---------------------------------------------------------------------------

/// A creation succeeds exactly when its accounts are in order, the amount is
/// positive and the timing lies within the config's bounds, whichever payment,
/// merchant and amount it is for.
pub proof fn law_creation_succeeds_exactly_when(
    pre: CreateEscrow,
    post: CreateEscrow,
    payment_id: [u8; 32],
    merchant: Pubkey,
    amount: u64,
    payment_window: i64,
    grace_period: i64,
    found: Option<(Seq<u8>, u8)>,
    vault_address: Option<Seq<u8>>,
    config_address: Option<Seq<u8>>,
    r: Result<EscrowOpening, InstructionError>,
)
    requires
        create_escrow_effect(
            pre,
            post,
            payment_id,
            merchant,
            amount,
            payment_window,
            grace_period,
            found,
            vault_address,
            config_address,
            r,
        ),
    ensures
        r is Ok <==> {
            &&& pre.config.in_use
            &&& config_address == Some(pre.config.key@)
            &&& found matches Some(f) && f.0 == pre.escrow.key@
            &&& !pre.escrow.in_use
            &&& pre.escrow.is_writable
            &&& vault_address == Some(pre.vault.key@)
            &&& !pre.vault.in_use
            &&& pre.vault.is_writable
            &&& pre.usdc_mint == pre.config.data.usdc_mint
            &&& pre.payer.is_writable
            &&& amount > 0
            &&& pre.config.data.min_payment_window <= payment_window
                <= pre.config.data.max_payment_window
            &&& pre.config.data.min_grace_period <= grace_period
                <= pre.config.data.max_grace_period
        },
{
}

/// A creation records the payment, the merchant, the amount and the timing that
/// were asked for, unfunded, with the bump that was found. It asks for the
/// escrow's account and its vault to be created at the payer's expense, and
/// announces payment, merchant and amount. Nothing else changes.
pub proof fn law_creation_records_what_was_asked(
    pre: CreateEscrow,
    post: CreateEscrow,
    payment_id: [u8; 32],
    merchant: Pubkey,
    amount: u64,
    payment_window: i64,
    grace_period: i64,
    found: Option<(Seq<u8>, u8)>,
    vault_address: Option<Seq<u8>>,
    config_address: Option<Seq<u8>>,
    opening: EscrowOpening,
)
    requires
        create_escrow_effect(
            pre,
            post,
            payment_id,
            merchant,
            amount,
            payment_window,
            grace_period,
            found,
            vault_address,
            config_address,
            Ok(opening),
        ),
    ensures
        post.escrow.data.payment_id == payment_id,
        post.escrow.data.merchant == merchant,
        post.escrow.data.amount == amount,
        post.escrow.data.payment_window == payment_window,
        post.escrow.data.grace_period == grace_period,
        post.escrow.data.status == EscrowStatus::Pending,
        post.escrow.data.expiry == 0,
        forall|i: int| 0 <= i < 32 ==> post.escrow.data.depositor@[i] == 0,
        found == Some((pre.escrow.key@, post.escrow.data.bump)),
        post == (CreateEscrow {
            escrow: EscrowAccount { in_use: true, data: post.escrow.data, ..pre.escrow },
            vault: VaultSlot { in_use: true, ..pre.vault },
            ..pre
        }),
        opening.event.payment_id == payment_id,
        opening.event.merchant == merchant,
        opening.event.amount == amount,
        opening.create.account == pre.escrow.key,
        opening.create.payer == pre.payer.key,
        opening.create.space == 8 + 3 * 32 + 4 * 8 + 2,
        opening.create.owner@ == program_id_bytes(),
        opening.create.signer matches RecordSigner::Escrow(signer) && signer.payment_id == payment_id
            && signer.bump == post.escrow.data.bump,
        opening.create_vault.account == pre.vault.key,
        opening.create_vault.payer == pre.payer.key,
        opening.create_vault.authority == pre.escrow.key,
        opening.create_vault.mint == pre.config.data.usdc_mint,
{
}

/// A refused creation changes nothing. It names what is wrong with the accounts,
/// or, where they are in order, the first of amount, window and grace period that
/// is out of bounds.
pub proof fn law_creation_refusals(
    pre: CreateEscrow,
    post: CreateEscrow,
    payment_id: [u8; 32],
    merchant: Pubkey,
    amount: u64,
    payment_window: i64,
    grace_period: i64,
    found: Option<(Seq<u8>, u8)>,
    vault_address: Option<Seq<u8>>,
    config_address: Option<Seq<u8>>,
    e: InstructionError,
)
    requires
        create_escrow_effect(
            pre,
            post,
            payment_id,
            merchant,
            amount,
            payment_window,
            grace_period,
            found,
            vault_address,
            config_address,
            Err(e),
        ),
    ensures
        post == pre,
        pre.accounts_bump(found, vault_address, config_address) matches Err(refusal) ==> e == refusal,
        pre.accounts_bump(found, vault_address, config_address) is Ok ==> ({
            let in_window = pre.config.data.min_payment_window <= payment_window
                <= pre.config.data.max_payment_window;
            let in_grace = pre.config.data.min_grace_period <= grace_period
                <= pre.config.data.max_grace_period;
            match e {
                InstructionError::Escrow(EscrowError::InvalidAmount) => amount == 0,
                InstructionError::Escrow(EscrowError::PaymentWindowOutOfBounds) => {
                    amount > 0 && !in_window
                },
                InstructionError::Escrow(EscrowError::GracePeriodOutOfBounds) => {
                    amount > 0 && in_window && !in_grace
                },
                _ => false,
            }
        }),
{
}

/// The bounds asked for at setup bind every creation under that config: with
/// accounts in order and a positive amount, an escrow is opened exactly when its
/// timing lies within what was asked for, in the mint that the setup named.
pub proof fn law_setup_bounds_bind_every_escrow(
    pre1: InitializeConfig,
    post1: InitializeConfig,
    admin: Pubkey,
    payment_windows: (i64, i64),
    grace_periods: (i64, i64),
    found1: Option<(Seq<u8>, u8)>,
    setup: ConfigSetup,
    pre: CreateEscrow,
    post: CreateEscrow,
    payment_id: [u8; 32],
    merchant: Pubkey,
    amount: u64,
    payment_window: i64,
    grace_period: i64,
    found: Option<(Seq<u8>, u8)>,
    vault_address: Option<Seq<u8>>,
    config_address: Option<Seq<u8>>,
    r: Result<EscrowOpening, InstructionError>,
)
    requires
        initialize_config_effect(
            pre1,
            post1,
            admin,
            payment_windows,
            grace_periods,
            found1,
            Ok(setup),
        ),
        pre.config.data == post1.config.data,
        create_escrow_effect(
            pre,
            post,
            payment_id,
            merchant,
            amount,
            payment_window,
            grace_period,
            found,
            vault_address,
            config_address,
            r,
        ),
    ensures
        r is Ok ==> {
            &&& payment_windows.0 <= payment_window <= payment_windows.1
            &&& grace_periods.0 <= grace_period <= grace_periods.1
            &&& pre.usdc_mint == pre1.usdc_mint
        },
        pre.accounts_bump(found, vault_address, config_address) is Ok && amount > 0 ==> {
            &&& r == Err::<EscrowOpening, InstructionError>(
                InstructionError::Escrow(EscrowError::PaymentWindowOutOfBounds),
            ) <==> !(payment_windows.0 <= payment_window <= payment_windows.1)
            &&& r is Ok <==> {
                &&& payment_windows.0 <= payment_window <= payment_windows.1
                &&& grace_periods.0 <= grace_period <= grace_periods.1
            }
        },
{
}

/// The amount asked for at creation is the amount of every transfer: whatever
/// happens to the escrow, each accepted deposit, release and refund moves it, no
/// more and no less.
pub proof fn law_amount_asked_is_the_amount_moved(
    pre: CreateEscrow,
    post: CreateEscrow,
    payment_id: [u8; 32],
    merchant: Pubkey,
    amount: u64,
    payment_window: i64,
    grace_period: i64,
    found: Option<(Seq<u8>, u8)>,
    vault_address: Option<Seq<u8>>,
    config_address: Option<Seq<u8>>,
    opening: EscrowOpening,
    calls: Seq<Call>,
    last: Call,
)
    requires
        create_escrow_effect(
            pre,
            post,
            payment_id,
            merchant,
            amount,
            payment_window,
            grace_period,
            found,
            vault_address,
            config_address,
            Ok(opening),
        ),
        is_history(post.config.data, post.escrow, calls.push(last)),
    ensures
        last.transfer() matches Some(transfer) ==> transfer.amount == amount,
        last is Cancel <==> last.transfer() is None,
        last.escrow().data.amount == amount,
{
    assert(calls.push(last).drop_last() =~= calls);
    law_history_keeps_address_and_terms(post.config.data, post.escrow, calls);
}

// ---------------------------------------------------------------------------
// Deposit
// ---------------------------------------------------------------------------

/// A deposit is admitted exactly when its accounts are in order and the escrow
/// is pending, whatever the amount and the balances; and what is in progress is
/// the deposit of these very accounts.
pub proof fn law_deposit_is_admitted_exactly_when(
    ctx: Deposit,
    config_address: Option<Seq<u8>>,
    addresses: DerivedAddressesView,
)
    ensures
        deposit_result(ctx, config_address, addresses) == Ok::<Deposit, InstructionError>(ctx) <==> {
            &&& ctx.config.in_use
            &&& ctx.escrow.in_use
            &&& config_address == Some(ctx.config.key@)
            &&& addresses.escrow == Some(ctx.escrow.key@)
            &&& ctx.escrow.is_writable
            &&& ctx.vault.owner == ctx.escrow.key
            &&& addresses.vault == Some(ctx.vault.key@)
            &&& ctx.vault.is_writable
            &&& ctx.depositor_token_account.is_writable
            &&& ctx.depositor_token_account.mint == ctx.usdc_mint
            &&& ctx.depositor_token_account.owner == ctx.depositor.key
            &&& ctx.usdc_mint == ctx.config.data.usdc_mint
            &&& ctx.depositor.is_writable
            &&& ctx.escrow.data.status == EscrowStatus::Pending
        },
        deposit_result(ctx, config_address, addresses) matches Ok(admitted) ==> admitted == ctx,
{
}

/// A deposit that is not admitted is refused for its accounts, or, where they
/// are in order, for the escrow's status.
pub proof fn law_deposit_refusals(
    ctx: Deposit,
    config_address: Option<Seq<u8>>,
    addresses: DerivedAddressesView,
    e: InstructionError,
)
    requires
        deposit_result(ctx, config_address, addresses) == Err::<Deposit, InstructionError>(e),
    ensures
        ctx.accounts_refusal(config_address, addresses) matches Some(refusal) ==> e == refusal,
        ctx.accounts_refusal(config_address, addresses) is None ==> {
            &&& e == InstructionError::Escrow(EscrowError::InvalidStatus)
            &&& ctx.escrow.data.status != EscrowStatus::Pending
        },
{
}

/// The transfer of a deposit moves the escrow's amount from the signer's token
/// account into the vault, on the signer's own authority.
pub proof fn law_deposit_transfer(
    ctx: Deposit,
)
    ensures
        deposit_transfer(ctx).from == ctx.depositor_token_account.key,
        deposit_transfer(ctx).to == ctx.vault.key,
        deposit_transfer(ctx).authority == ctx.depositor.key,
        deposit_transfer(ctx).amount == ctx.escrow.data.amount,
        deposit_transfer(ctx).signer is None,
{
}

/// A deposit in progress stands for its accounts, and a refused one for its
/// refusal.
pub proof fn law_deposit_in_progress(
    r: Result<DepositInProgress, InstructionError>,
)
    ensures
        r matches Ok(pending) ==> in_progress(r) == Ok::<Deposit, InstructionError>(pending@),
        r matches Err(e) ==> in_progress(r) == Err::<Deposit, InstructionError>(e),
{
}

/// A deposit whose transfer was made is recorded exactly when the clock can be
/// read and the end of the window is a time. Otherwise the refusal says which.
pub proof fn law_deposit_is_completed_exactly_when(
    ctx: Deposit,
    clock: Result<i64, u64>,
)
    ensures
        complete_deposit_result(ctx, clock) is Ok <==> {
            &&& clock matches Ok(now)
            &&& i64::MIN <= now + ctx.escrow.data.payment_window <= i64::MAX
        },
        clock matches Err(code) ==> complete_deposit_result(ctx, clock) == Err::<
            FundedEscrow,
            InstructionError,
        >(InstructionError::Clock(code)),
        clock is Ok && complete_deposit_result(ctx, clock) is Err ==> complete_deposit_result(
            ctx,
            clock,
        ) == Err::<FundedEscrow, InstructionError>(
            InstructionError::Escrow(EscrowError::MathOverflow),
        ),
{
}

/// A completed deposit makes the escrow funded, by the signer, until the end of
/// the payment window from now. Account and terms stay as they are. It announces
/// payment, depositor and that end.
pub proof fn law_completed_deposit(
    ctx: Deposit,
    now: i64,
    done: FundedEscrow,
)
    requires
        complete_deposit_result(ctx, Ok(now)) == Ok::<FundedEscrow, InstructionError>(done),
    ensures
        done.escrow.data.status == EscrowStatus::Funded,
        done.escrow.data.depositor == ctx.depositor.key,
        done.escrow.data.expiry == now + ctx.escrow.data.payment_window,
        done.escrow.data.payment_id == ctx.escrow.data.payment_id,
        done.escrow.data.merchant == ctx.escrow.data.merchant,
        done.escrow.data.amount == ctx.escrow.data.amount,
        done.escrow.data.payment_window == ctx.escrow.data.payment_window,
        done.escrow.data.grace_period == ctx.escrow.data.grace_period,
        done.escrow.data.bump == ctx.escrow.data.bump,
        done.escrow.key == ctx.escrow.key,
        done.escrow.in_use == ctx.escrow.in_use,
        done.escrow.is_writable == ctx.escrow.is_writable,
        done.event.payment_id == ctx.escrow.data.payment_id,
        done.event.depositor == ctx.depositor.key,
        done.event.expiry == now + ctx.escrow.data.payment_window,
{
}

// ---------------------------------------------------------------------------
// Release
// ---------------------------------------------------------------------------

/// A release succeeds exactly when the admin signs, up to the deadline of a
/// funded escrow, for a writable token account of the recorded merchant other
/// than the vault, with all accounts where they must be. The amount and the
/// balances, the merchant's among them, do not matter.
pub proof fn law_release_succeeds_exactly_when(
    pre: Release,
    post: Release,
    payment_id: [u8; 32],
    config_address: Option<Seq<u8>>,
    addresses: DerivedAddressesView,
    clock: Result<i64, u64>,
    r: Result<ReleasePayout, InstructionError>,
)
    requires
        release_effect(
            pre,
            post,
            payment_id,
            config_address,
            addresses,
            clock,
            r,
        ),
    ensures
        r is Ok <==> {
            &&& pre.config.in_use
            &&& pre.escrow.in_use
            &&& config_address == Some(pre.config.key@)
            &&& addresses.escrow == Some(pre.escrow.key@)
            &&& pre.escrow.is_writable
            &&& pre.vault.owner == pre.escrow.key
            &&& addresses.vault == Some(pre.vault.key@)
            &&& pre.vault.is_writable
            &&& pre.merchant_token_account.is_writable
            &&& pre.merchant_token_account.owner == pre.escrow.data.merchant
            &&& pre.merchant_token_account.key != pre.vault.key
            &&& pre.admin.key == pre.config.data.admin
            &&& pre.escrow.data.status == EscrowStatus::Funded
            &&& clock matches Ok(now) && now <= pre.escrow.data.expiry + pre.escrow.data.grace_period
            &&& i64::MIN <= pre.escrow.data.expiry + pre.escrow.data.grace_period <= i64::MAX
        },
{
}

/// A release moves the escrow's amount from the vault to the merchant's token
/// account, signed for the escrow, closes the vault exactly where nothing is left,
/// and announces payment, merchant and amount. Of the accounts only the escrow's
/// status changes.
pub proof fn law_release_pays_the_merchant(
    pre: Release,
    post: Release,
    payment_id: [u8; 32],
    config_address: Option<Seq<u8>>,
    addresses: DerivedAddressesView,
    clock: Result<i64, u64>,
    payout: ReleasePayout,
)
    requires
        release_effect(
            pre,
            post,
            payment_id,
            config_address,
            addresses,
            clock,
            Ok(payout),
        ),
    ensures
        post == (Release {
            escrow: EscrowAccount {
                data: Escrow { status: EscrowStatus::Released, ..pre.escrow.data },
                ..pre.escrow
            },
            ..pre
        }),
        payout.transfer.from == pre.vault.key,
        payout.transfer.to == pre.merchant_token_account.key,
        payout.transfer.authority == pre.escrow.key,
        payout.transfer.amount == pre.escrow.data.amount,
        payout.transfer.signer matches Some(signer) && signer.payment_id == payment_id && signer.bump
            == pre.escrow.data.bump,
        payout.close_vault is Some <==> pre.vault.amount == pre.escrow.data.amount,
        payout.close_vault matches Some(close) ==> {
            &&& close.account == pre.vault.key
            &&& close.destination == pre.merchant_token_account.key
            &&& close.authority == pre.escrow.key
            &&& close.signer.payment_id == payment_id
            &&& close.signer.bump == pre.escrow.data.bump
        },
        payout.event.payment_id == payment_id,
        payout.event.merchant == pre.escrow.data.merchant,
        payout.event.amount == pre.escrow.data.amount,
{
}

/// A refused release changes nothing. It names what is wrong with the accounts,
/// or, where they are in order, the first of status, clock, deadline, window and
/// destination that stands against it.
pub proof fn law_release_refusals(
    pre: Release,
    post: Release,
    payment_id: [u8; 32],
    config_address: Option<Seq<u8>>,
    addresses: DerivedAddressesView,
    clock: Result<i64, u64>,
    e: InstructionError,
)
    requires
        release_effect(
            pre,
            post,
            payment_id,
            config_address,
            addresses,
            clock,
            Err(e),
        ),
    ensures
        post == pre,
        pre.accounts_refusal(config_address, addresses) matches Some(refusal) ==> e == refusal,
        pre.accounts_refusal(config_address, addresses) is None ==> ({
            let funded = pre.escrow.data.status == EscrowStatus::Funded;
            let deadline = pre.escrow.data.expiry + pre.escrow.data.grace_period;
            let timed = funded && clock is Ok && i64::MIN <= deadline <= i64::MAX;
            match e {
                InstructionError::Escrow(EscrowError::InvalidStatus) => !funded,
                InstructionError::Clock(code) => {
                    funded && clock == Err::<i64, u64>(code)
                },
                InstructionError::Escrow(EscrowError::MathOverflow) => {
                    funded && clock is Ok && !timed
                },
                InstructionError::Escrow(EscrowError::ReleaseWindowPassed) => {
                    timed && clock->Ok_0 > deadline
                },
                InstructionError::PayoutIntoVault => {
                    timed && clock->Ok_0 <= deadline && pre.merchant_token_account.key
                        == pre.vault.key
                },
                _ => false,
            }
        }),
{
}

// ---------------------------------------------------------------------------
// Refund
// ---------------------------------------------------------------------------

/// A refund succeeds exactly when it comes after the deadline of a funded
/// escrow, for a writable token account of the recorded depositor, with all
/// accounts where they must be. The caller, the amount and the balances, the
/// depositor's among them, do not matter.
pub proof fn law_refund_succeeds_exactly_when(
    pre: RefundAfterExpiry,
    post: RefundAfterExpiry,
    payment_id: [u8; 32],
    config_address: Option<Seq<u8>>,
    addresses: DerivedAddressesView,
    clock: Result<i64, u64>,
    r: Result<RefundPayout, InstructionError>,
)
    requires
        refund_effect(
            pre,
            post,
            payment_id,
            config_address,
            addresses,
            clock,
            r,
        ),
    ensures
        r is Ok <==> {
            &&& pre.config.in_use
            &&& pre.escrow.in_use
            &&& config_address == Some(pre.config.key@)
            &&& addresses.escrow == Some(pre.escrow.key@)
            &&& pre.escrow.is_writable
            &&& pre.vault.owner == pre.escrow.key
            &&& addresses.vault == Some(pre.vault.key@)
            &&& pre.vault.is_writable
            &&& pre.depositor_token_account.is_writable
            &&& pre.depositor_token_account.owner == pre.escrow.data.depositor
            &&& pre.usdc_mint == pre.config.data.usdc_mint
            &&& pre.escrow.data.status == EscrowStatus::Funded
            &&& clock matches Ok(now) && now > pre.escrow.data.expiry + pre.escrow.data.grace_period
            &&& i64::MIN <= pre.escrow.data.expiry + pre.escrow.data.grace_period <= i64::MAX
        },
{
}

/// A refund moves the escrow's amount from the vault to the depositor's token
/// account, signed for the escrow, closes the vault exactly where nothing is left,
/// and announces payment, depositor and amount. Of the accounts only the escrow's
/// status changes.
pub proof fn law_refund_pays_the_depositor(
    pre: RefundAfterExpiry,
    post: RefundAfterExpiry,
    payment_id: [u8; 32],
    config_address: Option<Seq<u8>>,
    addresses: DerivedAddressesView,
    clock: Result<i64, u64>,
    payout: RefundPayout,
)
    requires
        refund_effect(
            pre,
            post,
            payment_id,
            config_address,
            addresses,
            clock,
            Ok(payout),
        ),
    ensures
        post == (RefundAfterExpiry {
            escrow: EscrowAccount {
                data: Escrow { status: EscrowStatus::Refunded, ..pre.escrow.data },
                ..pre.escrow
            },
            ..pre
        }),
        payout.transfer.from == pre.vault.key,
        payout.transfer.to == pre.depositor_token_account.key,
        payout.transfer.authority == pre.escrow.key,
        payout.transfer.amount == pre.escrow.data.amount,
        payout.transfer.signer matches Some(signer) && signer.payment_id == payment_id && signer.bump
            == pre.escrow.data.bump,
        payout.close_vault is Some <==> pre.vault.amount == pre.escrow.data.amount,
        payout.close_vault matches Some(close) ==> {
            &&& close.account == pre.vault.key
            &&& close.destination == pre.depositor_token_account.key
            &&& close.authority == pre.escrow.key
            &&& close.signer.payment_id == payment_id
            &&& close.signer.bump == pre.escrow.data.bump
        },
        payout.event.payment_id == payment_id,
        payout.event.depositor == pre.escrow.data.depositor,
        payout.event.amount == pre.escrow.data.amount,
{
}

/// A refused refund changes nothing. It names what is wrong with the accounts,
/// or, where they are in order, the first of status, clock, deadline, window and
/// depositor that stands against it.
pub proof fn law_refund_refusals(
    pre: RefundAfterExpiry,
    post: RefundAfterExpiry,
    payment_id: [u8; 32],
    config_address: Option<Seq<u8>>,
    addresses: DerivedAddressesView,
    clock: Result<i64, u64>,
    e: InstructionError,
)
    requires
        refund_effect(
            pre,
            post,
            payment_id,
            config_address,
            addresses,
            clock,
            Err(e),
        ),
    ensures
        post == pre,
        pre.accounts_refusal(config_address, addresses) matches Some(refusal) ==> e == refusal,
        pre.accounts_refusal(config_address, addresses) is None ==> ({
            let funded = pre.escrow.data.status == EscrowStatus::Funded;
            let deadline = pre.escrow.data.expiry + pre.escrow.data.grace_period;
            let timed = funded && clock is Ok && i64::MIN <= deadline <= i64::MAX;
            match e {
                InstructionError::Escrow(EscrowError::InvalidStatus) => !funded,
                InstructionError::Clock(code) => {
                    funded && clock == Err::<i64, u64>(code)
                },
                InstructionError::Escrow(EscrowError::MathOverflow) => {
                    funded && clock is Ok && !timed
                },
                InstructionError::Escrow(EscrowError::StillInReleaseWindow) => {
                    timed && clock->Ok_0 <= deadline
                },
                InstructionError::Escrow(EscrowError::WrongDepositor) => {
                    timed && clock->Ok_0 > deadline && pre.depositor_token_account.owner
                        != pre.escrow.data.depositor
                },
                _ => false,
            }
        }),
{
}

// ---------------------------------------------------------------------------
// Balances
// ---------------------------------------------------------------------------

/// The payee's balance does not matter: two releases that differ in it alone have
/// the same outcome.
pub proof fn law_release_ignores_the_payees_balance(
    pre1: Release,
    post1: Release,
    r1: Result<ReleasePayout, InstructionError>,
    pre2: Release,
    post2: Release,
    r2: Result<ReleasePayout, InstructionError>,
    payment_id: [u8; 32],
    config_address: Option<Seq<u8>>,
    addresses: DerivedAddressesView,
    clock: Result<i64, u64>,
)
    requires
        release_effect(
            pre1,
            post1,
            payment_id,
            config_address,
            addresses,
            clock,
            r1,
        ),
        release_effect(
            pre2,
            post2,
            payment_id,
            config_address,
            addresses,
            clock,
            r2,
        ),
        pre2 == (Release {
            merchant_token_account: TokenAccount {
                amount: pre2.merchant_token_account.amount,
                ..pre1.merchant_token_account
            },
            ..pre1
        }),
    ensures
        r1 == r2,
        post1.escrow == post2.escrow,
{
}

/// The payee's balance does not matter: two refunds that differ in it alone have
/// the same outcome.
pub proof fn law_refund_ignores_the_payees_balance(
    pre1: RefundAfterExpiry,
    post1: RefundAfterExpiry,
    r1: Result<RefundPayout, InstructionError>,
    pre2: RefundAfterExpiry,
    post2: RefundAfterExpiry,
    r2: Result<RefundPayout, InstructionError>,
    payment_id: [u8; 32],
    config_address: Option<Seq<u8>>,
    addresses: DerivedAddressesView,
    clock: Result<i64, u64>,
)
    requires
        refund_effect(
            pre1,
            post1,
            payment_id,
            config_address,
            addresses,
            clock,
            r1,
        ),
        refund_effect(
            pre2,
            post2,
            payment_id,
            config_address,
            addresses,
            clock,
            r2,
        ),
        pre2 == (RefundAfterExpiry {
            depositor_token_account: TokenAccount {
                amount: pre2.depositor_token_account.amount,
                ..pre1.depositor_token_account
            },
            ..pre1
        }),
    ensures
        r1 == r2,
        post1.escrow == post2.escrow,
{
}

/// The balances do not matter to a deposit: two that differ in them alone are
/// admitted or refused alike, and make the same transfer.
pub proof fn law_deposit_ignores_balances(
    a: Deposit,
    b: Deposit,
    config_address: Option<Seq<u8>>,
    addresses: DerivedAddressesView,
)
    requires
        b == (Deposit {
            vault: TokenAccount { amount: b.vault.amount, ..a.vault },
            depositor_token_account: TokenAccount {
                amount: b.depositor_token_account.amount,
                ..a.depositor_token_account
            },
            ..a
        }),
    ensures
        deposit_result(a, config_address, addresses) is Ok <==> deposit_result(
            b,
            config_address,
            addresses,
        ) is Ok,
        deposit_result(a, config_address, addresses) matches Err(e) ==> deposit_result(
            b,
            config_address,
            addresses,
        ) == Err::<Deposit, InstructionError>(e),
        deposit_transfer(a) == deposit_transfer(b),
{
}

// ---------------------------------------------------------------------------
// Cancellation
// ---------------------------------------------------------------------------

/// A cancellation succeeds exactly when the recorded merchant signs, while the
/// escrow is pending, with all accounts where they must be. The amount and the
/// vault's balance do not matter.
pub proof fn law_cancellation_succeeds_exactly_when(
    pre: CancelPending,
    post: CancelPending,
    payment_id: [u8; 32],
    config_address: Option<Seq<u8>>,
    addresses: DerivedAddressesView,
    r: Result<Cancellation, InstructionError>,
)
    requires
        cancel_effect(
            pre,
            post,
            payment_id,
            config_address,
            addresses,
            r,
        ),
    ensures
        r is Ok <==> {
            &&& pre.config.in_use
            &&& pre.escrow.in_use
            &&& config_address == Some(pre.config.key@)
            &&& addresses.escrow == Some(pre.escrow.key@)
            &&& pre.escrow.is_writable
            &&& pre.vault.owner == pre.escrow.key
            &&& addresses.vault == Some(pre.vault.key@)
            &&& pre.vault.is_writable
            &&& pre.merchant.key != pre.escrow.key
            &&& pre.usdc_mint == pre.config.data.usdc_mint
            &&& pre.merchant.is_writable
            &&& pre.escrow.data.status == EscrowStatus::Pending
            &&& pre.merchant.key == pre.escrow.data.merchant
        },
{
}

/// A cancellation closes the escrow, and the vault exactly where it is empty,
/// signed for the escrow and with the rent going to the merchant, and announces
/// the payment. Nothing else changes.
pub proof fn law_cancellation_closes_the_escrow(
    pre: CancelPending,
    post: CancelPending,
    payment_id: [u8; 32],
    config_address: Option<Seq<u8>>,
    addresses: DerivedAddressesView,
    cancelled: Cancellation,
)
    requires
        cancel_effect(
            pre,
            post,
            payment_id,
            config_address,
            addresses,
            Ok(cancelled),
        ),
    ensures
        post == (CancelPending {
            escrow: EscrowAccount { in_use: false, ..pre.escrow },
            ..pre
        }),
        cancelled.close_escrow == pre.escrow.key,
        cancelled.rent_to == pre.escrow.data.merchant,
        cancelled.event.payment_id == payment_id,
        cancelled.close_vault is Some <==> pre.vault.amount == 0,
        cancelled.close_vault matches Some(close) ==> {
            &&& close.account == pre.vault.key
            &&& close.destination == pre.escrow.data.merchant
            &&& close.authority == pre.escrow.key
            &&& close.signer.payment_id == payment_id
            &&& close.signer.bump == pre.escrow.data.bump
        },
{
}

/// A refused cancellation changes nothing. It names what is wrong with the
/// accounts, or, where they are in order, the escrow's status, or else the signer.
pub proof fn law_cancellation_refusals(
    pre: CancelPending,
    post: CancelPending,
    payment_id: [u8; 32],
    config_address: Option<Seq<u8>>,
    addresses: DerivedAddressesView,
    e: InstructionError,
)
    requires
        cancel_effect(
            pre,
            post,
            payment_id,
            config_address,
            addresses,
            Err(e),
        ),
    ensures
        post == pre,
        pre.accounts_refusal(config_address, addresses) matches Some(refusal) ==> e == refusal,
        pre.accounts_refusal(config_address, addresses) is None ==> match e {
            InstructionError::Escrow(EscrowError::InvalidStatus) => {
                pre.escrow.data.status != EscrowStatus::Pending
            },
            InstructionError::Escrow(EscrowError::UnauthorizedMerchant) => {
                pre.escrow.data.status == EscrowStatus::Pending && pre.merchant.key
                    != pre.escrow.data.merchant
            },
            _ => false,
        },
{
}

} // verus!
