//! What holds of an escrow over its whole life.
//!
//! A [`Call`] is one instruction on an existing escrow together with its
//! accounts and the time at which it runs. A history is a series of accepted
//! calls under one config, each on the state that the one before it left.

use vstd::prelude::*;

use crate::accounts::{
    derived_addresses, escrow_refusal, vault_refusal, CancelPending, ConfigAccount, CreateEscrow,
    Deposit, DerivedAddressesView, EscrowAccount, InitializeConfig, RefundAfterExpiry, Release,
    TokenAccount,
};
use crate::address::{
    associated_token_address, config_address, escrow_address, new_config_address,
    new_escrow_address, program_address, program_id_bytes,
};
use crate::effects::{CloseTokenAccount, TokenTransfer};
use crate::error::{EscrowError, InstructionError};
use crate::instructions::{
    cancel_effect, cancel_refusal, cancellation, complete_deposit_refusal,
    complete_deposit_result, create_escrow_effect, deposit_refusal, deposit_result,
    deposit_transfer, funded, initialize_config_effect, is_time, refund_effect, refund_payout,
    refund_refusal, release_effect, release_payout, release_refusal, with_status, Cancellation,
    ConfigSetup, EscrowOpening, FundedEscrow, RefundPayout, ReleasePayout,
};
use crate::pubkey::{law_same_bytes_same_key, Pubkey};
use crate::state::{Config, EscrowStatus};

verus! {

/// An instruction on an existing escrow.
pub enum Call {
    /// A deposit whose transfer succeeds.
    Deposit { deposit: Deposit, payment_id: [u8; 32], now: i64 },
    Release { release: Release, payment_id: [u8; 32], now: i64 },
    Refund { refund: RefundAfterExpiry, payment_id: [u8; 32], now: i64 },
    Cancel { cancel: CancelPending, payment_id: [u8; 32] },
}

impl Call {
    /// The escrow that the call is made on.
    pub open spec fn escrow(self) -> EscrowAccount {
        match self {
            Call::Deposit { deposit: ctx, .. } => ctx.escrow,
            Call::Release { release: ctx, .. } => ctx.escrow,
            Call::Refund { refund: ctx, .. } => ctx.escrow,
            Call::Cancel { cancel: ctx, .. } => ctx.escrow,
        }
    }

    /// The config that the call presents.
    pub open spec fn config(self) -> ConfigAccount {
        match self {
            Call::Deposit { deposit: ctx, .. } => ctx.config,
            Call::Release { release: ctx, .. } => ctx.config,
            Call::Refund { refund: ctx, .. } => ctx.config,
            Call::Cancel { cancel: ctx, .. } => ctx.config,
        }
    }

    /// The vault that the call presents.
    pub open spec fn vault(self) -> TokenAccount {
        match self {
            Call::Deposit { deposit: ctx, .. } => ctx.vault,
            Call::Release { release: ctx, .. } => ctx.vault,
            Call::Refund { refund: ctx, .. } => ctx.vault,
            Call::Cancel { cancel: ctx, .. } => ctx.vault,
        }
    }

    /// The payment that the call names.
    pub open spec fn payment_id(self) -> [u8; 32] {
        match self {
            Call::Deposit { payment_id, .. } => payment_id,
            Call::Release { payment_id, .. } => payment_id,
            Call::Refund { payment_id, .. } => payment_id,
            Call::Cancel { payment_id, .. } => payment_id,
        }
    }

    /// Where the config must be.
    pub open spec fn config_address(self) -> Option<Seq<u8>> {
        config_address(self.config().data.bump)
    }

    /// Where escrow and vault must be.
    pub open spec fn addresses(self) -> DerivedAddressesView {
        derived_addresses(self.payment_id()@, self.escrow(), self.config().data.usdc_mint)
    }

    /// Why the call is refused, if it is.
    pub open spec fn refusal(self) -> Option<InstructionError> {
        match self {
            Call::Deposit { deposit: ctx, now, .. } => {
                let admission = deposit_refusal(ctx, self.config_address(), self.addresses());
                if admission is Some {
                    admission
                } else {
                    complete_deposit_refusal(ctx, Ok(now))
                }
            },
            Call::Release { release: ctx, now, .. } => release_refusal(
                ctx,
                self.config_address(),
                self.addresses(),
                Ok(now),
            ),
            Call::Refund { refund: ctx, now, .. } => refund_refusal(
                ctx,
                self.config_address(),
                self.addresses(),
                Ok(now),
            ),
            Call::Cancel { cancel: ctx, .. } => cancel_refusal(
                ctx,
                self.config_address(),
                self.addresses(),
            ),
        }
    }

    /// Whether nothing is wrong with the accounts.
    pub open spec fn accounts_in_order(self) -> bool {
        match self {
            Call::Deposit { deposit: ctx, .. } => ctx.accounts_refusal(
                self.config_address(),
                self.addresses(),
            ) is None,
            Call::Release { release: ctx, .. } => ctx.accounts_refusal(
                self.config_address(),
                self.addresses(),
            ) is None,
            Call::Refund { refund: ctx, .. } => ctx.accounts_refusal(
                self.config_address(),
                self.addresses(),
            ) is None,
            Call::Cancel { cancel: ctx, .. } => ctx.accounts_refusal(
                self.config_address(),
                self.addresses(),
            ) is None,
        }
    }

    pub open spec fn accepted(self) -> bool {
        self.refusal() is None
    }

    /// The escrow after the accepted call.
    pub open spec fn after(self) -> EscrowAccount {
        match self {
            Call::Deposit { deposit: ctx, now, .. } => EscrowAccount {
                data: funded(
                    ctx.escrow.data,
                    ctx.depositor.key,
                    (now + ctx.escrow.data.payment_window) as i64,
                ),
                ..ctx.escrow
            },
            Call::Release { release: ctx, .. } => with_status(ctx.escrow, EscrowStatus::Released),
            Call::Refund { refund: ctx, .. } => with_status(ctx.escrow, EscrowStatus::Refunded),
            Call::Cancel { cancel: ctx, .. } => EscrowAccount { in_use: false, ..ctx.escrow },
        }
    }

    /// The tokens that the accepted call moves.
    pub open spec fn transfer(self) -> Option<TokenTransfer> {
        match self {
            Call::Deposit { deposit: ctx, .. } => Some(deposit_transfer(ctx)),
            Call::Release { release: ctx, payment_id, .. } => Some(
                release_payout(ctx, payment_id).transfer,
            ),
            Call::Refund { refund: ctx, payment_id, .. } => Some(
                refund_payout(ctx, payment_id).transfer,
            ),
            Call::Cancel { .. } => None,
        }
    }

    /// The token account that the accepted call closes.
    pub open spec fn close_vault(self) -> Option<CloseTokenAccount> {
        match self {
            Call::Deposit { .. } => None,
            Call::Release { release: ctx, payment_id, .. } => release_payout(
                ctx,
                payment_id,
            ).close_vault,
            Call::Refund { refund: ctx, payment_id, .. } => refund_payout(
                ctx,
                payment_id,
            ).close_vault,
            Call::Cancel { cancel: ctx, payment_id } => cancellation(ctx, payment_id).close_vault,
        }
    }

    /// The same call on a vault that holds `amount` tokens.
    pub open spec fn with_balance(self, amount: u64) -> Call {
        let vault = TokenAccount { amount, ..self.vault() };
        match self {
            Call::Deposit { deposit: ctx, payment_id, now } => Call::Deposit {
                deposit: Deposit { vault, ..ctx },
                payment_id,
                now,
            },
            Call::Release { release: ctx, payment_id, now } => Call::Release {
                release: Release { vault, ..ctx },
                payment_id,
                now,
            },
            Call::Refund { refund: ctx, payment_id, now } => Call::Refund {
                refund: RefundAfterExpiry { vault, ..ctx },
                payment_id,
                now,
            },
            Call::Cancel { cancel: ctx, payment_id } => Call::Cancel {
                cancel: CancelPending { vault, ..ctx },
                payment_id,
            },
        }
    }

    /// Tokens that the accepted call pays into the given vault.
    pub open spec fn paid_in(self, vault: Pubkey) -> nat {
        match self.transfer() {
            Some(transfer) if self is Deposit && transfer.to == vault => transfer.amount as nat,
            _ => 0,
        }
    }

    /// Tokens that the accepted call pays out of the given vault.
    pub open spec fn paid_out(self, vault: Pubkey) -> nat {
        match self.transfer() {
            Some(transfer) if !(self is Deposit) && transfer.from == vault =>
                transfer.amount as nat,
            _ => 0,
        }
    }
}

/// The moves of the status, where `None` stands for a closed escrow.
pub open spec fn allowed_move(from: EscrowStatus, to: Option<EscrowStatus>) -> bool {
    match from {
        EscrowStatus::Pending => to == Some(EscrowStatus::Funded) || to is None,
        EscrowStatus::Funded => to == Some(EscrowStatus::Released) || to == Some(
            EscrowStatus::Refunded,
        ),
        EscrowStatus::Released | EscrowStatus::Refunded => false,
    }
}

/// The status of an escrow, if there is one.
pub open spec fn status_of(escrow: EscrowAccount) -> Option<EscrowStatus> {
    if escrow.in_use {
        Some(escrow.data.status)
    } else {
        None
    }
}

/// The same account with the same content; whether it may be written to is up
/// to each instruction.
pub open spec fn same_account(a: EscrowAccount, b: EscrowAccount) -> bool {
    &&& a.key == b.key
    &&& a.in_use == b.in_use
    &&& a.data == b.data
}

/// The escrow at the end of a history.
pub open spec fn state_after(start: EscrowAccount, calls: Seq<Call>) -> EscrowAccount {
    if calls.len() == 0 {
        start
    } else {
        calls.last().after()
    }
}

/// Whether every call is made under `config`, on the escrow as the calls before
/// it left it, and is accepted.
pub open spec fn is_history(config: Config, start: EscrowAccount, calls: Seq<Call>) -> bool
    decreases calls.len(),
{
    if calls.len() == 0 {
        true
    } else {
        &&& is_history(config, start, calls.drop_last())
        &&& calls.last().config().data == config
        &&& same_account(calls.last().escrow(), state_after(start, calls.drop_last()))
        &&& calls.last().accepted()
    }
}

/// What a history pays into a vault.
pub open spec fn total_paid_in(calls: Seq<Call>, vault: Pubkey) -> nat
    decreases calls.len(),
{
    if calls.len() == 0 {
        0
    } else {
        total_paid_in(calls.drop_last(), vault) + calls.last().paid_in(vault)
    }
}

/// What a history pays out of a vault.
pub open spec fn total_paid_out(calls: Seq<Call>, vault: Pubkey) -> nat
    decreases calls.len(),
{
    if calls.len() == 0 {
        0
    } else {
        total_paid_out(calls.drop_last(), vault) + calls.last().paid_out(vault)
    }
}

/// Whether `vault` is the escrow's account for the accepted stablecoin.
pub open spec fn is_vault_of(vault: Pubkey, escrow: Pubkey, config: Config) -> bool {
    associated_token_address(escrow@, config.usdc_mint@) == Some(vault@)
}

/// Whether the call pays the escrow's amount to `destination` out of the
/// escrow's vault for the accepted stablecoin, which can pay it, and closes the
/// vault exactly where nothing is left.
pub open spec fn pays_the_amount(call: Call, destination: TokenAccount) -> bool {
    &&& is_vault_of(call.vault().key, call.escrow().key, call.config().data)
    &&& call.transfer() matches Some(transfer)
    &&& transfer.from == call.vault().key
    &&& transfer.to == destination.key
    &&& transfer.amount == call.escrow().data.amount
    &&& transfer.amount <= call.vault().amount
    &&& call.close_vault() is Some <==> call.vault().amount - transfer.amount == 0
}

// ---------------------------------------------------------------------------
// Setup
// ---------------------------------------------------------------------------

/// A config that was accepted has well-formed bounds.
pub proof fn law_config_is_well_formed(
    pre: InitializeConfig,
    post: InitializeConfig,
    admin: Pubkey,
    payment_window: (i64, i64),
    grace_period: (i64, i64),
    found: Option<(Seq<u8>, u8)>,
    setup: ConfigSetup,
)
    requires
        initialize_config_effect(
            pre,
            post,
            admin,
            payment_window,
            grace_period,
            found,
            Ok(setup),
        ),
    ensures
        post.config.in_use,
        post.config.data.wf(),
        post.config.data.admin == admin,
        post.config.data.usdc_mint == pre.usdc_mint,
{
}

/// Setup is one-time: once it has succeeded, every further attempt is refused,
/// whoever makes it and whatever it asks for, and the config keeps every value.
/// The second attempt sees the config as the first one left it, if it presents
/// the config's address at all.
pub proof fn law_config_is_set_once(
    pre1: InitializeConfig,
    post1: InitializeConfig,
    admin1: Pubkey,
    payment_window1: (i64, i64),
    grace_period1: (i64, i64),
    setup1: ConfigSetup,
    pre2: InitializeConfig,
    post2: InitializeConfig,
    admin2: Pubkey,
    payment_window2: (i64, i64),
    grace_period2: (i64, i64),
    r2: Result<ConfigSetup, InstructionError>,
)
    requires
        initialize_config_effect(
            pre1,
            post1,
            admin1,
            payment_window1,
            grace_period1,
            new_config_address(),
            Ok(setup1),
        ),
        pre2.config.key == post1.config.key ==> {
            &&& pre2.config.in_use == post1.config.in_use
            &&& pre2.config.data == post1.config.data
        },
        initialize_config_effect(
            pre2,
            post2,
            admin2,
            payment_window2,
            grace_period2,
            new_config_address(),
            r2,
        ),
    ensures
        r2 is Err,
        post2 == pre2,
        post2.config.key == post1.config.key ==> post2.config.data == post1.config.data,
{
    law_same_bytes_same_key(post1.config.key, pre2.config.key);
}

/// An escrow that was created under a well-formed config is well-formed, holds
/// no funds, and has its timing within the config's bounds.
pub proof fn law_timing_is_bounded(
    pre: CreateEscrow,
    post: CreateEscrow,
    payment_id: [u8; 32],
    merchant: Pubkey,
    amount: u64,
    payment_window: i64,
    grace_period: i64,
    found: Option<(Seq<u8>, u8)>,
    vault_address: Option<Seq<u8>>,
    config_address: Option<Seq<u8>>,
    opening: EscrowOpening,
)
    requires
        pre.config.data.wf(),
        create_escrow_effect(
            pre,
            post,
            payment_id,
            merchant,
            amount,
            payment_window,
            grace_period,
            found,
            vault_address,
            config_address,
            Ok(opening),
        ),
    ensures
        post.escrow.in_use,
        post.escrow.data.wf(),
        post.escrow.data.status == EscrowStatus::Pending,
        pre.config.data.allows(post.escrow.data.payment_window, post.escrow.data.grace_period),
{
}

/// One address per payment: two escrows that were created for the same payment
/// id have the same address and the same bump.
pub proof fn law_one_address_per_payment(
    pre1: CreateEscrow,
    post1: CreateEscrow,
    merchant1: Pubkey,
    amount1: u64,
    timing1: (i64, i64),
    opening1: EscrowOpening,
    pre2: CreateEscrow,
    post2: CreateEscrow,
    merchant2: Pubkey,
    amount2: u64,
    timing2: (i64, i64),
    opening2: EscrowOpening,
    payment_id: [u8; 32],
)
    requires
        create_escrow_effect(
            pre1,
            post1,
            payment_id,
            merchant1,
            amount1,
            timing1.0,
            timing1.1,
            new_escrow_address(payment_id@),
            associated_token_address(pre1.escrow.key@, pre1.usdc_mint@),
            config_address(pre1.config.data.bump),
            Ok(opening1),
        ),
        create_escrow_effect(
            pre2,
            post2,
            payment_id,
            merchant2,
            amount2,
            timing2.0,
            timing2.1,
            new_escrow_address(payment_id@),
            associated_token_address(pre2.escrow.key@, pre2.usdc_mint@),
            config_address(pre2.config.data.bump),
            Ok(opening2),
        ),
    ensures
        post1.escrow.key == post2.escrow.key,
        post1.escrow.data.bump == post2.escrow.data.bump,
{
    law_same_bytes_same_key(post1.escrow.key, post2.escrow.key);
}

/// One escrow per payment: after an escrow has been created, and whatever
/// happened to it short of a cancellation, a further creation for the payment
/// is refused and leaves the escrow as it is, with any merchant, amount and
/// timing. The second attempt sees the escrow as the history left it, if it
/// presents the escrow's address at all.
pub proof fn law_one_escrow_per_payment(
    pre1: CreateEscrow,
    post1: CreateEscrow,
    merchant1: Pubkey,
    amount1: u64,
    timing1: (i64, i64),
    opening1: EscrowOpening,
    calls: Seq<Call>,
    pre2: CreateEscrow,
    post2: CreateEscrow,
    merchant2: Pubkey,
    amount2: u64,
    timing2: (i64, i64),
    r2: Result<EscrowOpening, InstructionError>,
    payment_id: [u8; 32],
)
    requires
        create_escrow_effect(
            pre1,
            post1,
            payment_id,
            merchant1,
            amount1,
            timing1.0,
            timing1.1,
            new_escrow_address(payment_id@),
            associated_token_address(pre1.escrow.key@, pre1.usdc_mint@),
            config_address(pre1.config.data.bump),
            Ok(opening1),
        ),
        is_history(post1.config.data, post1.escrow, calls),
        forall|i: int| 0 <= i < calls.len() ==> !(#[trigger] calls[i] is Cancel),
        pre2.escrow.key == post1.escrow.key ==> same_account(
            pre2.escrow,
            state_after(post1.escrow, calls),
        ),
        create_escrow_effect(
            pre2,
            post2,
            payment_id,
            merchant2,
            amount2,
            timing2.0,
            timing2.1,
            new_escrow_address(payment_id@),
            associated_token_address(pre2.escrow.key@, pre2.usdc_mint@),
            config_address(pre2.config.data.bump),
            r2,
        ),
    ensures
        r2 is Err,
        post2 == pre2,
{
    law_same_bytes_same_key(post1.escrow.key, pre2.escrow.key);
    if calls.len() > 0 {
        assert(!(calls[calls.len() - 1] is Cancel));
        law_closed_escrow_refuses_everything(calls.last());
    }
}

/// Payments have accounts of their own: an escrow that is created while the
/// accounts of another are there has another address, and so has its vault.
pub proof fn law_payments_have_accounts_of_their_own(
    pre1: CreateEscrow,
    post1: CreateEscrow,
    payment_id1: [u8; 32],
    merchant1: Pubkey,
    amount1: u64,
    timing1: (i64, i64),
    opening1: EscrowOpening,
    pre2: CreateEscrow,
    post2: CreateEscrow,
    payment_id2: [u8; 32],
    merchant2: Pubkey,
    amount2: u64,
    timing2: (i64, i64),
    opening2: EscrowOpening,
)
    requires
        create_escrow_effect(
            pre1,
            post1,
            payment_id1,
            merchant1,
            amount1,
            timing1.0,
            timing1.1,
            new_escrow_address(payment_id1@),
            associated_token_address(pre1.escrow.key@, pre1.usdc_mint@),
            config_address(pre1.config.data.bump),
            Ok(opening1),
        ),
        create_escrow_effect(
            pre2,
            post2,
            payment_id2,
            merchant2,
            amount2,
            timing2.0,
            timing2.1,
            new_escrow_address(payment_id2@),
            associated_token_address(pre2.escrow.key@, pre2.usdc_mint@),
            config_address(pre2.config.data.bump),
            Ok(opening2),
        ),
        pre2.escrow.key == post1.escrow.key ==> pre2.escrow.in_use,
        pre2.vault.key == post1.vault.key ==> pre2.vault.in_use,
    ensures
        post1.escrow.key != post2.escrow.key,
        opening1.create_vault.account != opening2.create_vault.account,
{
}

/// Payments share no balance: of two payments, the second of which got its
/// escrow while the accounts of the first were there, what is done for one
/// moves nothing into or out of the vault of the other.
pub proof fn law_payments_share_no_balance(
    pre1: CreateEscrow,
    post1: CreateEscrow,
    payment_id1: [u8; 32],
    merchant1: Pubkey,
    amount1: u64,
    timing1: (i64, i64),
    opening1: EscrowOpening,
    pre2: CreateEscrow,
    post2: CreateEscrow,
    payment_id2: [u8; 32],
    merchant2: Pubkey,
    amount2: u64,
    timing2: (i64, i64),
    opening2: EscrowOpening,
    call1: Call,
    call2: Call,
)
    requires
        create_escrow_effect(
            pre1,
            post1,
            payment_id1,
            merchant1,
            amount1,
            timing1.0,
            timing1.1,
            new_escrow_address(payment_id1@),
            associated_token_address(pre1.escrow.key@, pre1.usdc_mint@),
            config_address(pre1.config.data.bump),
            Ok(opening1),
        ),
        create_escrow_effect(
            pre2,
            post2,
            payment_id2,
            merchant2,
            amount2,
            timing2.0,
            timing2.1,
            new_escrow_address(payment_id2@),
            associated_token_address(pre2.escrow.key@, pre2.usdc_mint@),
            config_address(pre2.config.data.bump),
            Ok(opening2),
        ),
        pre2.escrow.key == post1.escrow.key ==> pre2.escrow.in_use,
        pre2.vault.key == post1.vault.key ==> pre2.vault.in_use,
        pre2.config.data == pre1.config.data,
        call1.accepted(),
        call1.escrow().key == post1.escrow.key,
        call1.config().data == pre1.config.data,
        call2.accepted(),
        call2.escrow().key == post2.escrow.key,
        call2.config().data == pre1.config.data,
    ensures
        call1.vault().key == opening1.create_vault.account,
        call2.vault().key == opening2.create_vault.account,
        call1.vault().key != call2.vault().key,
        call1.paid_in(call2.vault().key) == 0,
        call1.paid_out(call2.vault().key) == 0,
        call2.paid_in(call1.vault().key) == 0,
        call2.paid_out(call1.vault().key) == 0,
{
    law_only_the_accepted_stablecoin_moves(call1);
    law_only_the_accepted_stablecoin_moves(call2);
    law_same_bytes_same_key(call1.vault().key, opening1.create_vault.account);
    law_same_bytes_same_key(call2.vault().key, opening2.create_vault.account);
}

/// A created escrow is found again: as long as its address and bump are those
/// of its payment, which [`crate::instructions::create_escrow`] ensures, every
/// later instruction for that payment accepts it as the escrow account.
pub proof fn law_created_escrow_is_recognised(
    payment_id: [u8; 32],
    created: EscrowAccount,
    later: EscrowAccount,
    mint: Pubkey,
)
    requires
        escrow_address(payment_id@, created.data.bump) == Some(created.key@),
        later.key == created.key,
        later.is_writable,
        later.data.same_terms(created.data),
    ensures
        escrow_refusal(later, derived_addresses(payment_id@, later, mint)) is None,
{
}

/// The vault that is created with an escrow belongs to the escrow, holds the
/// accepted stablecoin, and is the one that every later instruction under the
/// same config asks for.
pub proof fn law_created_vault_is_recognised(
    pre: CreateEscrow,
    post: CreateEscrow,
    payment_id: [u8; 32],
    merchant: Pubkey,
    amount: u64,
    payment_window: i64,
    grace_period: i64,
    found: Option<(Seq<u8>, u8)>,
    config_address: Option<Seq<u8>>,
    opening: EscrowOpening,
    vault: TokenAccount,
    later: EscrowAccount,
)
    requires
        create_escrow_effect(
            pre,
            post,
            payment_id,
            merchant,
            amount,
            payment_window,
            grace_period,
            found,
            associated_token_address(pre.escrow.key@, pre.usdc_mint@),
            config_address,
            Ok(opening),
        ),
        opening.create_vault.describes(vault),
        vault.is_writable,
        later.key == post.escrow.key,
    ensures
        vault.owner == post.escrow.key,
        vault.mint == post.config.data.usdc_mint,
        is_vault_of(vault.key, post.escrow.key, post.config.data),
        vault_refusal(
            vault,
            later.key,
            derived_addresses(payment_id@, later, post.config.data.usdc_mint),
        ) is None,
{
}

/// The program's signature for a new config is that of the config's address:
/// the seeds with which it is created derive it, given what
/// [`crate::instructions::initialize_config`] ensures of the bump.
pub proof fn law_program_signs_for_the_new_config(
    pre: InitializeConfig,
    post: InitializeConfig,
    admin: Pubkey,
    payment_window: (i64, i64),
    grace_period: (i64, i64),
    found: Option<(Seq<u8>, u8)>,
    setup: ConfigSetup,
)
    requires
        initialize_config_effect(
            pre,
            post,
            admin,
            payment_window,
            grace_period,
            found,
            Ok(setup),
        ),
        config_address(post.config.data.bump) == Some(post.config.key@),
    ensures
        program_address(setup.create.signer.seeds_spec(), program_id_bytes()) == Some(
            setup.create.account@,
        ),
        setup.create.owner@ == program_id_bytes(),
{
}

/// The program's signature for a new escrow is that of the escrow's address:
/// the seeds with which it is created derive it, given what
/// [`crate::instructions::create_escrow`] ensures of the bump.
pub proof fn law_program_signs_for_the_new_escrow(
    pre: CreateEscrow,
    post: CreateEscrow,
    payment_id: [u8; 32],
    merchant: Pubkey,
    amount: u64,
    payment_window: i64,
    grace_period: i64,
    found: Option<(Seq<u8>, u8)>,
    vault_address: Option<Seq<u8>>,
    config_address: Option<Seq<u8>>,
    opening: EscrowOpening,
)
    requires
        create_escrow_effect(
            pre,
            post,
            payment_id,
            merchant,
            amount,
            payment_window,
            grace_period,
            found,
            vault_address,
            config_address,
            Ok(opening),
        ),
        escrow_address(payment_id@, post.escrow.data.bump) == Some(post.escrow.key@),
    ensures
        program_address(opening.create.signer.seeds_spec(), program_id_bytes()) == Some(
            opening.create.account@,
        ),
        opening.create.owner@ == program_id_bytes(),
{
}

// ---------------------------------------------------------------------------
// Calls and instructions
// ---------------------------------------------------------------------------

/// A deposit and its completion do what the call says.
pub proof fn law_deposit_is_its_call(
    ctx: Deposit,
    payment_id: [u8; 32],
    now: i64,
    admitted: Result<Deposit, InstructionError>,
    r: Result<FundedEscrow, InstructionError>,
)
    requires
        admitted == deposit_result(
            ctx,
            config_address(ctx.config.data.bump),
            derived_addresses(payment_id@, ctx.escrow, ctx.config.data.usdc_mint),
        ),
        admitted matches Ok(pending) ==> r == complete_deposit_result(pending, Ok(now)),
    ensures
        ({
            let call = Call::Deposit { deposit: ctx, payment_id, now };
            match admitted {
                Err(e) => call.refusal() == Some(e),
                Ok(pending) => {
                    &&& Some(deposit_transfer(pending)) == call.transfer()
                    &&& match r {
                        Err(e) => call.refusal() == Some(e),
                        Ok(done) => call.accepted() && call.after() == done.escrow,
                    }
                },
            }
        }),
{
}

/// A release does what the call says.
pub proof fn law_release_is_its_call(
    pre: Release,
    post: Release,
    payment_id: [u8; 32],
    now: i64,
    r: Result<ReleasePayout, InstructionError>,
)
    requires
        release_effect(
            pre,
            post,
            payment_id,
            config_address(pre.config.data.bump),
            derived_addresses(payment_id@, pre.escrow, pre.config.data.usdc_mint),
            Ok(now),
            r,
        ),
    ensures
        ({
            let call = Call::Release { release: pre, payment_id, now };
            match r {
                Err(e) => call.refusal() == Some(e) && post == pre,
                Ok(payout) => {
                    &&& call.accepted()
                    &&& call.after() == post.escrow
                    &&& call.transfer() == Some(payout.transfer)
                    &&& call.close_vault() == payout.close_vault
                },
            }
        }),
{
}

/// A refund does what the call says.
pub proof fn law_refund_is_its_call(
    pre: RefundAfterExpiry,
    post: RefundAfterExpiry,
    payment_id: [u8; 32],
    now: i64,
    r: Result<RefundPayout, InstructionError>,
)
    requires
        refund_effect(
            pre,
            post,
            payment_id,
            config_address(pre.config.data.bump),
            derived_addresses(payment_id@, pre.escrow, pre.config.data.usdc_mint),
            Ok(now),
            r,
        ),
    ensures
        ({
            let call = Call::Refund { refund: pre, payment_id, now };
            match r {
                Err(e) => call.refusal() == Some(e) && post == pre,
                Ok(payout) => {
                    &&& call.accepted()
                    &&& call.after() == post.escrow
                    &&& call.transfer() == Some(payout.transfer)
                    &&& call.close_vault() == payout.close_vault
                },
            }
        }),
{
}

/// A cancellation does what the call says.
pub proof fn law_cancellation_is_its_call(
    pre: CancelPending,
    post: CancelPending,
    payment_id: [u8; 32],
    r: Result<Cancellation, InstructionError>,
)
    requires
        cancel_effect(
            pre,
            post,
            payment_id,
            config_address(pre.config.data.bump),
            derived_addresses(payment_id@, pre.escrow, pre.config.data.usdc_mint),
            r,
        ),
    ensures
        ({
            let call = Call::Cancel { cancel: pre, payment_id };
            match r {
                Err(e) => call.refusal() == Some(e) && post == pre,
                Ok(closing) => {
                    &&& call.accepted()
                    &&& call.after() == post.escrow
                    &&& call.close_vault() == closing.close_vault
                    &&& closing.close_escrow == call.escrow().key
                },
            }
        }),
{
}

/// Who may do what, and when. With accounts in order, and as long as the sums
/// of times are times: deposit while pending; release while funded, up to the
/// deadline, to another account than the vault; refund to the depositor while funded, after the deadline; cancel
/// by the merchant while pending.
pub proof fn law_when_each_instruction_is_accepted(call: Call)
    requires
        call.accounts_in_order(),
        call is Release || call is Refund ==> is_time(call.escrow().data.release_deadline()),
        call matches Call::Deposit { deposit: ctx, now, .. } ==> is_time(
            now + ctx.escrow.data.payment_window,
        ),
    ensures
        call.accepted() <==> match call {
            Call::Deposit { deposit: ctx, .. } => ctx.escrow.data.status == EscrowStatus::Pending,
            Call::Release { release: ctx, now, .. } => {
                &&& ctx.escrow.data.status == EscrowStatus::Funded
                &&& now <= ctx.escrow.data.release_deadline()
                &&& ctx.merchant_token_account.key != ctx.vault.key
            },
            Call::Refund { refund: ctx, now, .. } => {
                &&& ctx.escrow.data.status == EscrowStatus::Funded
                &&& now > ctx.escrow.data.release_deadline()
                &&& ctx.depositor_token_account.owner == ctx.escrow.data.depositor
            },
            Call::Cancel { cancel: ctx, .. } => {
                &&& ctx.escrow.data.status == EscrowStatus::Pending
                &&& ctx.merchant.key == ctx.escrow.data.merchant
            },
        },
{
}

// ---------------------------------------------------------------------------
// One call
// ---------------------------------------------------------------------------

/// The status only moves `Pending -> Funded -> Released | Refunded`, and only
/// an unfunded escrow can be closed.
pub proof fn law_status_moves_forward(call: Call)
    requires
        call.accepted(),
    ensures
        call.escrow().in_use,
        allowed_move(call.escrow().data.status, status_of(call.after())),
        call.after().key == call.escrow().key,
{
}

/// No double payout: an escrow that has been released or refunded refuses every
/// instruction.
pub proof fn law_paid_out_is_final(call: Call)
    requires
        call.escrow().data.status == EscrowStatus::Released || call.escrow().data.status
            == EscrowStatus::Refunded,
    ensures
        !call.accepted(),
        call.accounts_in_order() ==> call.refusal() == Some(
            InstructionError::Escrow(EscrowError::InvalidStatus),
        ),
{
}

/// A closed escrow refuses every instruction.
pub proof fn law_closed_escrow_refuses_everything(call: Call)
    ensures
        !call.escrow().in_use ==> call.refusal() == Some(InstructionError::AccountNotInitialized),
{
}

/// Nobody can pay into a cancelled escrow: a deposit on the account that an
/// accepted cancellation left is refused, whatever else it presents.
pub proof fn law_cancelled_escrow_takes_no_deposit(
    pre: CancelPending,
    post: CancelPending,
    payment_id: [u8; 32],
    cancel_config: Option<Seq<u8>>,
    cancel_addresses: DerivedAddressesView,
    cancelled: Cancellation,
    deposit: Deposit,
    deposit_config: Option<Seq<u8>>,
    deposit_addresses: DerivedAddressesView,
)
    requires
        cancel_effect(pre, post, payment_id, cancel_config, cancel_addresses, Ok(cancelled)),
        same_account(deposit.escrow, post.escrow),
    ensures
        deposit_result(deposit, deposit_config, deposit_addresses) is Err,
{
}

/// Terms and timing are immutable, and so are depositor and expiry once the
/// escrow has been funded.
pub proof fn law_terms_are_immutable(call: Call)
    requires
        call.accepted(),
    ensures
        call.after().data.same_terms(call.escrow().data),
        call.escrow().data.status != EscrowStatus::Pending ==> {
            &&& call.after().data.depositor == call.escrow().data.depositor
            &&& call.after().data.expiry == call.escrow().data.expiry
        },
{
}

/// A well-formed escrow stays well-formed.
pub proof fn law_well_formed_is_kept(call: Call)
    requires
        call.escrow().data.wf(),
        call.accepted(),
    ensures
        call.after().data.wf(),
{
}

/// Only the accepted stablecoin moves: the vault of every accepted call is the
/// escrow's account for the config's mint, a deposit goes into it from an
/// account of that mint, and a payout comes out of it.
pub proof fn law_only_the_accepted_stablecoin_moves(call: Call)
    requires
        call.accepted(),
    ensures
        is_vault_of(call.vault().key, call.escrow().key, call.config().data),
        call.vault().owner == call.escrow().key,
        call matches Call::Deposit { deposit: ctx, .. } ==> {
            &&& ctx.depositor_token_account.mint == ctx.config.data.usdc_mint
            &&& deposit_transfer(ctx).from == ctx.depositor_token_account.key
            &&& deposit_transfer(ctx).to == call.vault().key
        },
        call matches Call::Release { release: ctx, payment_id, .. } ==> release_payout(
            ctx,
            payment_id,
        ).transfer.from == call.vault().key,
        call matches Call::Refund { refund: ctx, payment_id, .. } ==> refund_payout(
            ctx,
            payment_id,
        ).transfer.from == call.vault().key,
{
}

/// A call that names another mint than the config's, or brings a vault that is
/// not the escrow's account for the config's mint, is refused.
pub proof fn law_other_mints_are_refused(call: Call)
    requires
        ({
            ||| !is_vault_of(call.vault().key, call.escrow().key, call.config().data)
            ||| call matches Call::Deposit { deposit: ctx, .. } && ctx.usdc_mint
                != ctx.config.data.usdc_mint
            ||| call matches Call::Refund { refund: ctx, .. } && ctx.usdc_mint
                != ctx.config.data.usdc_mint
            ||| call matches Call::Cancel { cancel: ctx, .. } && ctx.usdc_mint
                != ctx.config.data.usdc_mint
        }),
    ensures
        !call.accepted(),
        !call.accounts_in_order(),
{
}

/// An accepted deposit takes exactly the agreed amount from a token account of
/// the signer, records the signer as the depositor, and starts the window at
/// the time of the deposit.
pub proof fn law_deposit_is_credited_to_the_signer(ctx: Deposit, payment_id: [u8; 32], now: i64)
    requires
        (Call::Deposit { deposit: ctx, payment_id, now }).accepted(),
        ctx.escrow.data.wf(),
    ensures
        deposit_transfer(ctx).amount == ctx.escrow.data.amount,
        ctx.depositor_token_account.owner == ctx.depositor.key,
        deposit_transfer(ctx).authority == ctx.depositor.key,
        ({
            let after = (Call::Deposit { deposit: ctx, payment_id, now }).after().data;
            &&& after.status == EscrowStatus::Funded
            &&& after.depositor == ctx.depositor.key
            &&& after.expiry == now + ctx.escrow.data.payment_window
            &&& now < after.expiry < after.release_deadline()
            &&& after.release_deadline() == now + after.payment_window + after.grace_period
        }),
{
}

/// Only the configured admin can release, only within the window, and only to
/// a token account of the recorded merchant.
pub proof fn law_release_needs_the_admin(
    ctx: Release,
    payment_id: [u8; 32],
    config_address: Option<Seq<u8>>,
    addresses: DerivedAddressesView,
    now: i64,
)
    requires
        release_refusal(ctx, config_address, addresses, Ok(now)) is None,
    ensures
        ctx.admin.key == ctx.config.data.admin,
        ctx.escrow.data.status == EscrowStatus::Funded,
        now <= ctx.escrow.data.release_deadline(),
        release_payout(ctx, payment_id).transfer.to == ctx.merchant_token_account.key,
        release_payout(ctx, payment_id).close_vault matches Some(close) ==> close.destination
            == ctx.merchant_token_account.key,
        ctx.merchant_token_account.owner == ctx.escrow.data.merchant,
        release_payout(ctx, payment_id).transfer.amount == ctx.escrow.data.amount,
{
}

/// A key that is not the admin's never releases anything, whatever else it
/// presents.
pub proof fn law_others_cannot_release(
    ctx: Release,
    config_address: Option<Seq<u8>>,
    addresses: DerivedAddressesView,
    clock: Result<i64, u64>,
)
    requires
        ctx.admin.key != ctx.config.data.admin,
    ensures
        release_refusal(ctx, config_address, addresses, clock) is Some,
{
}

/// A refund goes to a token account of the recorded depositor, and only after
/// the release window.
pub proof fn law_refund_goes_to_the_depositor(
    ctx: RefundAfterExpiry,
    payment_id: [u8; 32],
    config_address: Option<Seq<u8>>,
    addresses: DerivedAddressesView,
    now: i64,
)
    requires
        refund_refusal(ctx, config_address, addresses, Ok(now)) is None,
    ensures
        ctx.escrow.data.status == EscrowStatus::Funded,
        now > ctx.escrow.data.release_deadline(),
        refund_payout(ctx, payment_id).transfer.to == ctx.depositor_token_account.key,
        refund_payout(ctx, payment_id).close_vault matches Some(close) ==> close.destination
            == ctx.depositor_token_account.key,
        ctx.depositor_token_account.owner == ctx.escrow.data.depositor,
        refund_payout(ctx, payment_id).transfer.amount == ctx.escrow.data.amount,
{
}

/// Refunds are permissionless: who calls makes no difference.
pub proof fn law_anyone_can_refund(
    a: RefundAfterExpiry,
    b: RefundAfterExpiry,
    payment_id: [u8; 32],
    config_address: Option<Seq<u8>>,
    addresses: DerivedAddressesView,
    clock: Result<i64, u64>,
)
    requires
        b == (RefundAfterExpiry { caller: b.caller, ..a }),
    ensures
        refund_refusal(a, config_address, addresses, clock) == refund_refusal(
            b,
            config_address,
            addresses,
            clock,
        ),
        refund_payout(a, payment_id) == refund_payout(b, payment_id),
{
}

/// Release and refund exclude each other: at no time are both possible.
pub proof fn law_release_and_refund_exclude_each_other(
    release: Release,
    release_id: [u8; 32],
    refund: RefundAfterExpiry,
    refund_id: [u8; 32],
    now: i64,
)
    requires
        release.escrow.data == refund.escrow.data,
    ensures
        !(Call::Release { release, payment_id: release_id, now }).accepted() || !(Call::Refund {
            refund,
            payment_id: refund_id,
            now,
        }).accepted(),
{
}

/// Funds are never trapped: at every time a funded escrow whose release
/// deadline is a time can be released by the admin or refunded by anyone, with
/// accounts that are in order, from a vault that holds the escrow's amount or
/// more. The destination gets the whole amount, the vault can pay it, and a
/// close is ordered only where nothing is left, so that tokens that someone
/// else sent to the vault block nothing.
pub proof fn law_funds_are_never_trapped(
    release: Release,
    refund: RefundAfterExpiry,
    payment_id: [u8; 32],
    now: i64,
)
    requires
        release.config.data == refund.config.data,
        same_account(release.escrow, refund.escrow),
        release.escrow.data.status == EscrowStatus::Funded,
        is_time(release.escrow.data.release_deadline()),
        release.vault.amount >= release.escrow.data.amount,
        refund.vault.amount >= refund.escrow.data.amount,
    ensures
        ({
            let call = Call::Release { release, payment_id, now };
            now <= release.escrow.data.release_deadline() && call.accounts_in_order()
                && release.merchant_token_account.key != release.vault.key ==> {
                &&& call.accepted()
                &&& pays_the_amount(call, release.merchant_token_account)
                &&& release.merchant_token_account.owner == release.escrow.data.merchant
            }
        }),
        ({
            let call = Call::Refund { refund, payment_id, now };
            now > refund.escrow.data.release_deadline() && call.accounts_in_order()
                && refund.depositor_token_account.owner == refund.escrow.data.depositor ==> {
                &&& call.accepted()
                &&& pays_the_amount(call, refund.depositor_token_account)
                &&& status_of(call.after()) == Some(EscrowStatus::Refunded)
            }
        }),
{
}

/// Tokens that someone sends to a vault block nothing: however many it holds, a
/// call is accepted or refused all the same, and does the same to the escrow
/// and to everyone's tokens. Only the close depends on them.
pub proof fn law_unsolicited_tokens_block_nothing(call: Call, amount: u64)
    ensures
        call.with_balance(amount).refusal() == call.refusal(),
        call.with_balance(amount).after() == call.after(),
        call.with_balance(amount).transfer() == call.transfer(),
{
}

/// A vault is closed exactly when the call leaves it empty, and a deposit never
/// closes it.
pub proof fn law_only_an_empty_vault_is_closed(call: Call)
    requires
        call.accepted(),
    ensures
        call.close_vault() is Some <==> {
            &&& !(call is Deposit)
            &&& call.vault().amount - call.paid_out(call.vault().key) == 0
        },
        call.close_vault() matches Some(close) ==> close.account == call.vault().key,
{
}

/// Only the recorded merchant can cancel, only while the escrow is unfunded,
/// and the rent of what is closed goes to that merchant.
pub proof fn law_cancel_needs_the_merchant(
    ctx: CancelPending,
    payment_id: [u8; 32],
    config_address: Option<Seq<u8>>,
    addresses: DerivedAddressesView,
)
    requires
        cancel_refusal(ctx, config_address, addresses) is None,
    ensures
        ctx.escrow.data.status == EscrowStatus::Pending,
        ctx.merchant.key == ctx.escrow.data.merchant,
        cancellation(ctx, payment_id).close_vault matches Some(close) ==> close.destination
            == ctx.escrow.data.merchant,
        cancellation(ctx, payment_id).rent_to == ctx.escrow.data.merchant,
{
}

/// The program's signature is the escrow's: wherever an accepted instruction
/// signs, the seeds derive the address of the authority that it signs for, and
/// that authority owns the vault.
pub proof fn law_program_signs_for_the_escrow(call: Call)
    requires
        call.accepted(),
    ensures
        match call {
            Call::Deposit { deposit: ctx, .. } => deposit_transfer(ctx).signer is None,
            Call::Release { release: ctx, payment_id, .. } => {
                let payout = release_payout(ctx, payment_id);
                &&& payout.transfer.signer matches Some(signer) && program_address(
                    signer.seeds_spec(),
                    program_id_bytes(),
                ) == Some(payout.transfer.authority@)
                &&& payout.transfer.authority == ctx.vault.owner
                &&& payout.close_vault matches Some(close) ==> {
                    &&& close.authority == payout.transfer.authority
                    &&& Some(close.signer) == payout.transfer.signer
                }
            },
            Call::Refund { refund: ctx, payment_id, .. } => {
                let payout = refund_payout(ctx, payment_id);
                &&& payout.transfer.signer matches Some(signer) && program_address(
                    signer.seeds_spec(),
                    program_id_bytes(),
                ) == Some(payout.transfer.authority@)
                &&& payout.transfer.authority == ctx.vault.owner
                &&& payout.close_vault matches Some(close) ==> {
                    &&& close.authority == payout.transfer.authority
                    &&& Some(close.signer) == payout.transfer.signer
                }
            },
            Call::Cancel { cancel: ctx, payment_id } => {
                cancellation(ctx, payment_id).close_vault matches Some(close) ==> {
                    &&& program_address(close.signer.seeds_spec(), program_id_bytes()) == Some(
                        close.authority@,
                    )
                    &&& close.authority == ctx.vault.owner
                }
            },
        },
{
}

// ---------------------------------------------------------------------------
// Histories
// ---------------------------------------------------------------------------

/// The escrow stays at its address, and its terms stay those of the creation.
pub proof fn law_history_keeps_address_and_terms(
    config: Config,
    start: EscrowAccount,
    calls: Seq<Call>,
)
    requires
        is_history(config, start, calls),
    ensures
        state_after(start, calls).key == start.key,
        state_after(start, calls).data.same_terms(start.data),
    decreases calls.len(),
{
    if calls.len() > 0 {
        law_history_keeps_address_and_terms(config, start, calls.drop_last());
    }
}

/// Conservation: over any history of a fresh escrow, its vault for the accepted
/// stablecoin takes in nothing before the deposit and the agreed amount by it,
/// pays out nothing before release or refund and the agreed amount by it; and
/// nothing was ever deposited into the vault of a closed escrow. Tokens that
/// someone sends to the vault without a deposit are not counted.
pub proof fn law_funds_are_conserved(
    config: Config,
    start: EscrowAccount,
    calls: Seq<Call>,
    vault: Pubkey,
)
    requires
        status_of(start) == Some(EscrowStatus::Pending),
        is_history(config, start, calls),
        is_vault_of(vault, start.key, config),
    ensures
        total_paid_in(calls, vault) == match status_of(state_after(start, calls)) {
            None | Some(EscrowStatus::Pending) => 0,
            Some(_) => start.data.amount as nat,
        },
        total_paid_out(calls, vault) == match status_of(state_after(start, calls)) {
            Some(EscrowStatus::Released) | Some(EscrowStatus::Refunded) => start.data.amount as nat,
            _ => 0,
        },
    decreases calls.len(),
{
    if calls.len() > 0 {
        law_funds_are_conserved(config, start, calls.drop_last(), vault);
        law_history_keeps_address_and_terms(config, start, calls.drop_last());
        law_only_the_accepted_stablecoin_moves(calls.last());
        law_same_bytes_same_key(calls.last().vault().key, vault);
    }
}

/// No vault but the escrow's account for the accepted stablecoin is ever paid
/// into or out of.
pub proof fn law_no_other_vault_is_touched(
    config: Config,
    start: EscrowAccount,
    calls: Seq<Call>,
    other: Pubkey,
)
    requires
        is_history(config, start, calls),
        !is_vault_of(other, start.key, config),
    ensures
        total_paid_in(calls, other) == 0,
        total_paid_out(calls, other) == 0,
    decreases calls.len(),
{
    if calls.len() > 0 {
        law_no_other_vault_is_touched(config, start, calls.drop_last(), other);
        law_history_keeps_address_and_terms(config, start, calls.drop_last());
        law_only_the_accepted_stablecoin_moves(calls.last());
    }
}

/// No more leaves a vault than came in.
pub proof fn law_payouts_are_covered(
    config: Config,
    start: EscrowAccount,
    calls: Seq<Call>,
    vault: Pubkey,
)
    requires
        status_of(start) == Some(EscrowStatus::Pending),
        is_history(config, start, calls),
    ensures
        total_paid_out(calls, vault) <= total_paid_in(calls, vault) <= start.data.amount,
{
    if is_vault_of(vault, start.key, config) {
        law_funds_are_conserved(config, start, calls, vault);
    } else {
        law_no_other_vault_is_touched(config, start, calls, vault);
    }
}

/// The vault covers every payout: as long as tokens leave it through this
/// program alone, so that it holds at least what was paid in and not yet paid
/// out, it holds what the next call pays out of it.
pub proof fn law_vault_covers_the_payout(
    config: Config,
    start: EscrowAccount,
    calls: Seq<Call>,
    last: Call,
)
    requires
        status_of(start) == Some(EscrowStatus::Pending),
        is_history(config, start, calls.push(last)),
        last.vault().amount >= total_paid_in(calls, last.vault().key) - total_paid_out(
            calls,
            last.vault().key,
        ),
    ensures
        last.paid_out(last.vault().key) <= last.vault().amount,
{
    assert(calls.push(last).drop_last() =~= calls);
    law_history_keeps_address_and_terms(config, start, calls);
    law_only_the_accepted_stablecoin_moves(last);
    law_funds_are_conserved(config, start, calls, last.vault().key);
}

/// An escrow that holds or held funds got them from its first call, a deposit,
/// and records for good that deposit's signer and the end of the window that
/// began with it. A closed escrow saw nothing but its cancellation.
pub proof fn law_depositor_is_the_first_signer(
    config: Config,
    start: EscrowAccount,
    calls: Seq<Call>,
)
    requires
        status_of(start) == Some(EscrowStatus::Pending),
        is_history(config, start, calls),
    ensures
        match status_of(state_after(start, calls)) {
            Some(EscrowStatus::Pending) => calls.len() == 0,
            Some(_) => {
                let e = state_after(start, calls).data;
                &&& calls.len() > 0
                &&& calls[0] matches Call::Deposit { deposit: ctx, now, .. } && {
                    &&& e.depositor == ctx.depositor.key
                    &&& e.expiry == now + e.payment_window
                }
            },
            None => calls.len() == 1 && calls[0] is Cancel,
        },
    decreases calls.len(),
{
    if calls.len() > 0 {
        law_depositor_is_the_first_signer(config, start, calls.drop_last());
        law_history_keeps_address_and_terms(config, start, calls.drop_last());
    }
}

/// Nothing follows a cancellation.
pub proof fn law_nothing_follows_a_cancellation(
    config: Config,
    start: EscrowAccount,
    calls: Seq<Call>,
    next: Call,
)
    requires
        is_history(config, start, calls),
        status_of(state_after(start, calls)) is None,
    ensures
        !is_history(config, start, calls.push(next)),
{
    assert(calls.push(next).drop_last() =~= calls);
    law_closed_escrow_refuses_everything(next);
}

/// Nothing follows a payout.
pub proof fn law_nothing_follows_a_payout(
    config: Config,
    start: EscrowAccount,
    calls: Seq<Call>,
    next: Call,
)
    requires
        is_history(config, start, calls),
        ({
            ||| status_of(state_after(start, calls)) == Some(EscrowStatus::Released)
            ||| status_of(state_after(start, calls)) == Some(EscrowStatus::Refunded)
        }),
    ensures
        !is_history(config, start, calls.push(next)),
{
    assert(calls.push(next).drop_last() =~= calls);
}

/// Locked destinations: whatever happened in between, a release pays the
/// merchant and the amount of the creation, and a refund pays back the signer
/// of the deposit.
pub proof fn law_destinations_are_locked(
    config: Config,
    start: EscrowAccount,
    calls: Seq<Call>,
    last: Call,
)
    requires
        status_of(start) == Some(EscrowStatus::Pending),
        is_history(config, start, calls.push(last)),
    ensures
        last matches Call::Release { release: ctx, payment_id, .. } ==> {
            &&& ctx.merchant_token_account.owner == start.data.merchant
            &&& release_payout(ctx, payment_id).transfer.to == ctx.merchant_token_account.key
            &&& release_payout(ctx, payment_id).transfer.amount == start.data.amount
        },
        last matches Call::Refund { refund: ctx, payment_id, .. } ==> {
            &&& calls.len() > 0
            &&& calls[0] matches Call::Deposit { deposit: paid, .. }
                && ctx.depositor_token_account.owner == paid.depositor.key
            &&& refund_payout(ctx, payment_id).transfer.to == ctx.depositor_token_account.key
            &&& refund_payout(ctx, payment_id).transfer.amount == start.data.amount
        },
{
    assert(calls.push(last).drop_last() =~= calls);
    law_history_keeps_address_and_terms(config, start, calls);
    law_depositor_is_the_first_signer(config, start, calls);
}

/// Money comes out of the vault that it went into: a deposit and a payout on
/// the same escrow under the same config name the same vault.
pub proof fn law_payout_comes_from_the_funded_vault(
    deposit: Deposit,
    deposit_id: [u8; 32],
    deposit_time: i64,
    payout: Call,
)
    requires
        (Call::Deposit {
            deposit,
            payment_id: deposit_id,
            now: deposit_time,
        }).accepted(),
        payout.accepted(),
        payout.escrow().key == deposit.escrow.key,
        payout.config().data == deposit.config.data,
    ensures
        payout matches Call::Release { release: ctx, payment_id, .. } ==> release_payout(
            ctx,
            payment_id,
        ).transfer.from == deposit_transfer(deposit).to,
        payout matches Call::Refund { refund: ctx, payment_id, .. } ==> refund_payout(
            ctx,
            payment_id,
        ).transfer.from == deposit_transfer(deposit).to,
{
    law_only_the_accepted_stablecoin_moves(payout);
    law_only_the_accepted_stablecoin_moves(
        Call::Deposit { deposit, payment_id: deposit_id, now: deposit_time },
    );
    law_same_bytes_same_key(payout.vault().key, deposit.vault.key);
}

} // verus!
