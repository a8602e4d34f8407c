//! What the account checks let through, and what each refusal tells.
//!
//! Every law is stated on the fields of the accounts: which combinations pass,
//! and, for each refusal, what is then known to be right and what is wrong.

use vstd::prelude::*;

use crate::accounts::{
    derived_addresses, occupied, verdict, CancelPending, CreateEscrow, Deposit, DerivedAddresses,
    DerivedAddressesView, EscrowAccount, InitializeConfig, RefundAfterExpiry, Release,
};
use crate::address::{
    associated_token_program_id_bytes, found_program_address, program_address, program_id_bytes,
    token_program_id_bytes,
};
use crate::error::{Constraint, EscrowError, InstructionError};
use crate::pubkey::Pubkey;

verus! {

/// A check succeeds exactly when there is nothing to refuse, and otherwise
/// fails with that very refusal.
pub proof fn law_verdict_is_the_refusal(refusal: Option<InstructionError>, e: InstructionError)
    ensures
        verdict(refusal) is Ok <==> refusal is None,
        verdict(refusal) == Err::<(), InstructionError>(e) <==> refusal == Some(e),
{
}

/// An address is free exactly when it belongs to the system program, whose own
/// address is all zeroes, and holds no data.
pub proof fn law_free_address(owner: Pubkey, data_len: usize)
    ensures
        !occupied(owner@, data_len) <==> {
            &&& data_len == 0
            &&& forall|i: int| 0 <= i < 32 ==> owner.bytes[i] == 0
        },
{
    if forall|i: int| 0 <= i < 32 ==> owner.bytes[i] == 0 {
        assert(owner@ =~= Seq::new(32, |i: int| 0u8));
    }
    if owner@ == Seq::new(32, |i: int| 0u8) {
        assert forall|i: int| 0 <= i < 32 implies owner.bytes[i] == 0 by {
            assert(owner@[i] == 0u8);
        }
    }
}

/// Derived addresses say where each account must be: as bytes, what was derived
/// for the escrow and for the vault, each in its place.
pub proof fn law_derived_addresses_view(addresses: DerivedAddresses, key: Pubkey)
    ensures
        addresses@.escrow == Some(key@) <==> (addresses.escrow matches Some(k) && k@ == key@),
        addresses@.vault == Some(key@) <==> (addresses.vault matches Some(k) && k@ == key@),
        addresses@.escrow is None <==> addresses.escrow is None,
        addresses@.vault is None <==> addresses.vault is None,
{
}

/// The escrow of a payment must be at the program address of the word `escrow`,
/// the whole payment id and the escrow's bump; its vault at the address found
/// for the escrow, the token program and the mint.
pub proof fn law_where_escrow_and_vault_must_be(
    payment_id: [u8; 32],
    escrow: EscrowAccount,
    mint: Pubkey,
)
    ensures
        derived_addresses(payment_id@, escrow, mint).escrow == program_address(
            seq![
                seq![101u8, 115, 99, 114, 111, 119],
                payment_id@,
                seq![escrow.data.bump],
            ],
            program_id_bytes(),
        ),
        derived_addresses(payment_id@, escrow, mint).vault == match found_program_address(
            seq![escrow.key.bytes@, token_program_id_bytes(), mint.bytes@],
            associated_token_program_id_bytes(),
        ) {
            Some(found) => Some(found.0),
            None => None,
        },
{
    assert(seq![seq![101u8, 115, 99, 114, 111, 119], payment_id@].push(seq![escrow.data.bump])
        =~= seq![seq![101u8, 115, 99, 114, 111, 119], payment_id@, seq![escrow.data.bump]]);
}

/// The accounts of a deposit pass exactly when config and escrow are there and
/// at their addresses, the vault is the escrow's, the payment comes from a
/// writable token account of the signer in the accepted stablecoin, and escrow,
/// vault and signer are writable. No balance matters.
pub proof fn law_deposit_accounts_that_pass(
    ctx: Deposit,
    config_address: Option<Seq<u8>>,
    addresses: DerivedAddressesView,
)
    ensures
        ctx.accounts_refusal(config_address, addresses) is None <==> {
            &&& ctx.config.in_use
            &&& ctx.escrow.in_use
            &&& config_address == Some(ctx.config.key@)
            &&& addresses.escrow == Some(ctx.escrow.key@)
            &&& ctx.escrow.is_writable
            &&& ctx.vault.owner == ctx.escrow.key
            &&& addresses.vault == Some(ctx.vault.key@)
            &&& ctx.vault.is_writable
            &&& ctx.depositor_token_account.is_writable
            &&& ctx.depositor_token_account.mint == ctx.usdc_mint
            &&& ctx.depositor_token_account.owner == ctx.depositor.key
            &&& ctx.usdc_mint == ctx.config.data.usdc_mint
            &&& ctx.depositor.is_writable
        },
{
}

/// A refusal of a deposit's accounts tells what is wrong, with everything that
/// comes before it in order.
pub proof fn law_deposit_accounts_refusals(
    ctx: Deposit,
    config_address: Option<Seq<u8>>,
    addresses: DerivedAddressesView,
)
    ensures
        ctx.accounts_refusal(config_address, addresses) matches Some(e) ==> ({
            let loaded = ctx.config.in_use && ctx.escrow.in_use;
            let escrow_found = loaded && config_address == Some(ctx.config.key@)
                && addresses.escrow == Some(ctx.escrow.key@);
            let escrow_ok = escrow_found && ctx.escrow.is_writable;
            let owned = escrow_ok && ctx.vault.owner == ctx.escrow.key;
            let vault_found = owned && addresses.vault == Some(ctx.vault.key@);
            let vault_ok = vault_found && ctx.vault.is_writable;
            let payer_ok = vault_ok && ctx.depositor_token_account.is_writable;
            let mint_ok = payer_ok && ctx.depositor_token_account.mint == ctx.usdc_mint;
            let owner_ok = mint_ok && ctx.depositor_token_account.owner == ctx.depositor.key;
            let accepted_mint = owner_ok && ctx.usdc_mint == ctx.config.data.usdc_mint;
            match e {
                InstructionError::AccountNotInitialized => !loaded,
                InstructionError::Account(Constraint::Seeds) => loaded && !escrow_found,
                InstructionError::Account(Constraint::Mut) => {
                    ||| escrow_found && !escrow_ok
                    ||| vault_found && !vault_ok
                    ||| vault_ok && !payer_ok
                    ||| accepted_mint && !ctx.depositor.is_writable
                },
                InstructionError::Account(Constraint::TokenOwner) => escrow_ok && !owned,
                InstructionError::NoProgramAddress => owned && addresses.vault is None,
                InstructionError::Account(Constraint::Associated) => {
                    owned && addresses.vault is Some && !vault_found
                },
                InstructionError::Escrow(EscrowError::WrongMint) => payer_ok && !mint_ok,
                InstructionError::Escrow(EscrowError::WrongDepositor) => mint_ok && !owner_ok,
                InstructionError::Account(Constraint::Address) => owner_ok && !accepted_mint,
                _ => false,
            }
        }),
{
}

/// The accounts of a release pass exactly when config and escrow are there and
/// at their addresses, the vault is the escrow's, the payee is a writable token
/// account of the recorded merchant, the signer is the config's admin, and
/// escrow and vault are writable. No balance matters.
pub proof fn law_release_accounts_that_pass(
    ctx: Release,
    config_address: Option<Seq<u8>>,
    addresses: DerivedAddressesView,
)
    ensures
        ctx.accounts_refusal(config_address, addresses) is None <==> {
            &&& ctx.config.in_use
            &&& ctx.escrow.in_use
            &&& config_address == Some(ctx.config.key@)
            &&& addresses.escrow == Some(ctx.escrow.key@)
            &&& ctx.escrow.is_writable
            &&& ctx.vault.owner == ctx.escrow.key
            &&& addresses.vault == Some(ctx.vault.key@)
            &&& ctx.vault.is_writable
            &&& ctx.merchant_token_account.is_writable
            &&& ctx.merchant_token_account.owner == ctx.escrow.data.merchant
            &&& ctx.admin.key == ctx.config.data.admin
        },
{
}

/// A refusal of a release's accounts tells what is wrong, with everything that
/// comes before it in order.
pub proof fn law_release_accounts_refusals(
    ctx: Release,
    config_address: Option<Seq<u8>>,
    addresses: DerivedAddressesView,
)
    ensures
        ctx.accounts_refusal(config_address, addresses) matches Some(e) ==> ({
            let loaded = ctx.config.in_use && ctx.escrow.in_use;
            let escrow_found = loaded && config_address == Some(ctx.config.key@)
                && addresses.escrow == Some(ctx.escrow.key@);
            let escrow_ok = escrow_found && ctx.escrow.is_writable;
            let owned = escrow_ok && ctx.vault.owner == ctx.escrow.key;
            let vault_found = owned && addresses.vault == Some(ctx.vault.key@);
            let vault_ok = vault_found && ctx.vault.is_writable;
            let payee_ok = vault_ok && ctx.merchant_token_account.is_writable;
            let merchant_ok = payee_ok && ctx.merchant_token_account.owner
                == ctx.escrow.data.merchant;
            match e {
                InstructionError::AccountNotInitialized => !loaded,
                InstructionError::Account(Constraint::Seeds) => loaded && !escrow_found,
                InstructionError::Account(Constraint::Mut) => {
                    ||| escrow_found && !escrow_ok
                    ||| vault_found && !vault_ok
                    ||| vault_ok && !payee_ok
                },
                InstructionError::Account(Constraint::TokenOwner) => escrow_ok && !owned,
                InstructionError::NoProgramAddress => owned && addresses.vault is None,
                InstructionError::Account(Constraint::Associated) => {
                    owned && addresses.vault is Some && !vault_found
                },
                InstructionError::Escrow(EscrowError::WrongMerchant) => payee_ok && !merchant_ok,
                InstructionError::Escrow(EscrowError::UnauthorizedAdmin) => {
                    merchant_ok && ctx.admin.key != ctx.config.data.admin
                },
                _ => false,
            }
        }),
{
}

/// The accounts of a refund pass exactly when config and escrow are there and
/// at their addresses, the vault is the escrow's, the payee's token account,
/// escrow and vault are writable, and the mint is the accepted stablecoin. Who
/// calls does not matter, and no balance does.
pub proof fn law_refund_accounts_that_pass(
    ctx: RefundAfterExpiry,
    config_address: Option<Seq<u8>>,
    addresses: DerivedAddressesView,
)
    ensures
        ctx.accounts_refusal(config_address, addresses) is None <==> {
            &&& ctx.config.in_use
            &&& ctx.escrow.in_use
            &&& config_address == Some(ctx.config.key@)
            &&& addresses.escrow == Some(ctx.escrow.key@)
            &&& ctx.escrow.is_writable
            &&& ctx.vault.owner == ctx.escrow.key
            &&& addresses.vault == Some(ctx.vault.key@)
            &&& ctx.vault.is_writable
            &&& ctx.depositor_token_account.is_writable
            &&& ctx.usdc_mint == ctx.config.data.usdc_mint
        },
{
}

/// A refusal of a refund's accounts tells what is wrong, with everything that
/// comes before it in order.
pub proof fn law_refund_accounts_refusals(
    ctx: RefundAfterExpiry,
    config_address: Option<Seq<u8>>,
    addresses: DerivedAddressesView,
)
    ensures
        ctx.accounts_refusal(config_address, addresses) matches Some(e) ==> ({
            let loaded = ctx.config.in_use && ctx.escrow.in_use;
            let escrow_found = loaded && config_address == Some(ctx.config.key@)
                && addresses.escrow == Some(ctx.escrow.key@);
            let escrow_ok = escrow_found && ctx.escrow.is_writable;
            let owned = escrow_ok && ctx.vault.owner == ctx.escrow.key;
            let vault_found = owned && addresses.vault == Some(ctx.vault.key@);
            let vault_ok = vault_found && ctx.vault.is_writable;
            let payee_ok = vault_ok && ctx.depositor_token_account.is_writable;
            match e {
                InstructionError::AccountNotInitialized => !loaded,
                InstructionError::Account(Constraint::Seeds) => loaded && !escrow_found,
                InstructionError::Account(Constraint::Mut) => {
                    ||| escrow_found && !escrow_ok
                    ||| vault_found && !vault_ok
                    ||| vault_ok && !payee_ok
                },
                InstructionError::Account(Constraint::TokenOwner) => escrow_ok && !owned,
                InstructionError::NoProgramAddress => owned && addresses.vault is None,
                InstructionError::Account(Constraint::Associated) => {
                    owned && addresses.vault is Some && !vault_found
                },
                InstructionError::Account(Constraint::Address) => {
                    payee_ok && ctx.usdc_mint != ctx.config.data.usdc_mint
                },
                _ => false,
            }
        }),
{
}

/// The accounts of a cancellation pass exactly when config and escrow are there
/// and at their addresses, the vault is the escrow's, the rent does not go to
/// the escrow itself, the mint is the accepted stablecoin, and escrow, vault and
/// merchant are writable. No balance matters.
pub proof fn law_cancellation_accounts_that_pass(
    ctx: CancelPending,
    config_address: Option<Seq<u8>>,
    addresses: DerivedAddressesView,
)
    ensures
        ctx.accounts_refusal(config_address, addresses) is None <==> {
            &&& ctx.config.in_use
            &&& ctx.escrow.in_use
            &&& config_address == Some(ctx.config.key@)
            &&& addresses.escrow == Some(ctx.escrow.key@)
            &&& ctx.escrow.is_writable
            &&& ctx.merchant.key != ctx.escrow.key
            &&& ctx.vault.owner == ctx.escrow.key
            &&& addresses.vault == Some(ctx.vault.key@)
            &&& ctx.vault.is_writable
            &&& ctx.usdc_mint == ctx.config.data.usdc_mint
            &&& ctx.merchant.is_writable
        },
{
}

/// A refusal of a cancellation's accounts tells what is wrong, with everything that
/// comes before it in order.
pub proof fn law_cancellation_accounts_refusals(
    ctx: CancelPending,
    config_address: Option<Seq<u8>>,
    addresses: DerivedAddressesView,
)
    ensures
        ctx.accounts_refusal(config_address, addresses) matches Some(e) ==> ({
            let loaded = ctx.config.in_use && ctx.escrow.in_use;
            let escrow_found = loaded && config_address == Some(ctx.config.key@)
                && addresses.escrow == Some(ctx.escrow.key@);
            let escrow_ok = escrow_found && ctx.escrow.is_writable;
            let rent_ok = escrow_ok && ctx.merchant.key != ctx.escrow.key;
            let owned = rent_ok && ctx.vault.owner == ctx.escrow.key;
            let vault_found = owned && addresses.vault == Some(ctx.vault.key@);
            let vault_ok = vault_found && ctx.vault.is_writable;
            let accepted_mint = vault_ok && ctx.usdc_mint == ctx.config.data.usdc_mint;
            match e {
                InstructionError::AccountNotInitialized => !loaded,
                InstructionError::Account(Constraint::Seeds) => loaded && !escrow_found,
                InstructionError::Account(Constraint::Mut) => {
                    ||| escrow_found && !escrow_ok
                    ||| vault_found && !vault_ok
                    ||| accepted_mint && !ctx.merchant.is_writable
                },
                InstructionError::Account(Constraint::Close) => escrow_ok && !rent_ok,
                InstructionError::Account(Constraint::TokenOwner) => rent_ok && !owned,
                InstructionError::NoProgramAddress => owned && addresses.vault is None,
                InstructionError::Account(Constraint::Associated) => {
                    owned && addresses.vault is Some && !vault_found
                },
                InstructionError::Account(Constraint::Address) => vault_ok && !accepted_mint,
                _ => false,
            }
        }),
{
}

/// The accounts of the setup pass, and give the config this bump, exactly when
/// the config is where it was found with the bump, nothing is there yet, and
/// config and payer are writable.
pub proof fn law_setup_accounts_that_pass(
    ctx: InitializeConfig,
    found: Option<(Seq<u8>, u8)>,
    bump: u8,
)
    ensures
        ctx.accounts_bump(found) == Ok::<u8, InstructionError>(bump) <==> {
            &&& found == Some((ctx.config.key@, bump))
            &&& !ctx.config.in_use
            &&& ctx.config.is_writable
            &&& ctx.payer.is_writable
        },
{
}

/// A refusal of the setup's accounts tells what is wrong, with everything that
/// comes before it in order.
pub proof fn law_setup_accounts_refusals(ctx: InitializeConfig, found: Option<(Seq<u8>, u8)>)
    ensures
        ctx.accounts_bump(found) matches Err(e) ==> ({
            let config_found = found matches Some(f) && f.0 == ctx.config.key@;
            let config_free = config_found && !ctx.config.in_use;
            match e {
                InstructionError::NoProgramAddress => found is None,
                InstructionError::Account(Constraint::Seeds) => found is Some && !config_found,
                InstructionError::AccountInUse => config_found && ctx.config.in_use,
                InstructionError::Account(Constraint::Mut) => {
                    config_free && !(ctx.config.is_writable && ctx.payer.is_writable)
                },
                _ => false,
            }
        }),
{
}

/// The accounts of a creation pass, and give the escrow this bump, exactly when
/// the config is there and at its address, the escrow is where it was found with
/// the bump, the vault is where it must be, neither exists yet, the mint is the
/// accepted stablecoin, and escrow, vault and payer are writable.
pub proof fn law_creation_accounts_that_pass(
    ctx: CreateEscrow,
    found: Option<(Seq<u8>, u8)>,
    vault_address: Option<Seq<u8>>,
    config_address: Option<Seq<u8>>,
    bump: u8,
)
    ensures
        ctx.accounts_bump(found, vault_address, config_address) == Ok::<u8, InstructionError>(
            bump,
        ) <==> {
            &&& ctx.config.in_use
            &&& config_address == Some(ctx.config.key@)
            &&& found == Some((ctx.escrow.key@, bump))
            &&& !ctx.escrow.in_use
            &&& ctx.escrow.is_writable
            &&& vault_address == Some(ctx.vault.key@)
            &&& !ctx.vault.in_use
            &&& ctx.vault.is_writable
            &&& ctx.usdc_mint == ctx.config.data.usdc_mint
            &&& ctx.payer.is_writable
        },
{
}

/// A refusal of a creation's accounts tells what is wrong, with everything that
/// comes before it in order.
pub proof fn law_creation_accounts_refusals(
    ctx: CreateEscrow,
    found: Option<(Seq<u8>, u8)>,
    vault_address: Option<Seq<u8>>,
    config_address: Option<Seq<u8>>,
)
    ensures
        ctx.accounts_bump(found, vault_address, config_address) matches Err(e) ==> ({
            let loaded = ctx.config.in_use;
            let escrow_found = loaded && (found matches Some(f) && f.0 == ctx.escrow.key@);
            let escrow_ok = escrow_found && !ctx.escrow.in_use && ctx.escrow.is_writable;
            let vault_found = escrow_ok && vault_address == Some(ctx.vault.key@);
            let vault_ok = vault_found && !ctx.vault.in_use && ctx.vault.is_writable;
            let config_ok = vault_ok && config_address == Some(ctx.config.key@);
            let mint_ok = config_ok && ctx.usdc_mint == ctx.config.data.usdc_mint;
            match e {
                InstructionError::AccountNotInitialized => !loaded,
                InstructionError::NoProgramAddress => {
                    ||| loaded && found is None
                    ||| escrow_ok && vault_address is None
                },
                InstructionError::Account(Constraint::Seeds) => {
                    ||| loaded && found is Some && !escrow_found
                    ||| vault_ok && !config_ok
                },
                InstructionError::AccountInUse => escrow_found && ctx.escrow.in_use,
                InstructionError::Account(Constraint::Mut) => {
                    ||| escrow_found && !ctx.escrow.in_use && !ctx.escrow.is_writable
                    ||| vault_found && !ctx.vault.in_use && !ctx.vault.is_writable
                    ||| mint_ok && !ctx.payer.is_writable
                },
                InstructionError::Account(Constraint::Associated) => {
                    escrow_ok && vault_address is Some && !vault_found
                },
                InstructionError::VaultInUse => vault_found && ctx.vault.in_use,
                InstructionError::Account(Constraint::Address) => config_ok && !mint_ok,
                _ => false,
            }
        }),
{
}

} // verus!
