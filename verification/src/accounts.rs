//! The accounts that each instruction is given, and what must hold of them.
//!
//! An account that is in use has the type that its field names, and each
//! [`Signer`] has signed the transaction. What remains is that the records are
//! there, or not there yet, and the properties that the instruction declares.
//! These are tested in the order of the declaration.

use vstd::prelude::*;

use crate::address::{
    associated_token_address, derive_associated_token_address,
    derive_escrow_address, escrow_address, found_bytes, key_bytes,
};
use crate::error::{Constraint, EscrowError, InstructionError};
use crate::pubkey::{law_same_bytes_same_key, zero_bytes, Pubkey};
use crate::state::{Config, Escrow};

verus! {

/// The account that holds the [`Config`].
#[derive(Clone, Copy, Debug, PartialEq, Eq)]
pub struct ConfigAccount {
    pub key: Pubkey,
    pub is_writable: bool,
    /// Whether there is an account at the address. Without one, `data` means
    /// nothing.
    pub in_use: bool,
    pub data: Config,
}

/// The account that holds an [`Escrow`].
#[derive(Clone, Copy, Debug, PartialEq, Eq)]
pub struct EscrowAccount {
    pub key: Pubkey,
    pub is_writable: bool,
    /// Whether there is an account at the address. Without one, `data` means
    /// nothing.
    pub in_use: bool,
    pub data: Escrow,
}

/// The address at which a vault is to be created.
#[derive(Clone, Copy, Debug, PartialEq, Eq)]
pub struct VaultSlot {
    pub key: Pubkey,
    pub is_writable: bool,
    /// Whether there is an account at the address.
    pub in_use: bool,
}

/// An account of the token program.
#[derive(Clone, Copy, Debug, PartialEq, Eq)]
pub struct TokenAccount {
    pub key: Pubkey,
    pub is_writable: bool,
    /// The token that it holds.
    pub mint: Pubkey,
    /// Who may spend from it.
    pub owner: Pubkey,
    /// How many tokens it holds when the instruction begins.
    pub amount: u64,
}

/// An account that has signed the transaction.
#[derive(Clone, Copy, Debug, PartialEq, Eq)]
pub struct Signer {
    pub key: Pubkey,
    pub is_writable: bool,
}

/// Sets up the program and creates the config.
#[derive(Clone, Copy, Debug, PartialEq, Eq)]
pub struct InitializeConfig {
    pub config: ConfigAccount,
    pub usdc_mint: Pubkey,
    pub payer: Signer,
}

/// Opens an escrow: creates its account and its vault.
#[derive(Clone, Copy, Debug, PartialEq, Eq)]
pub struct CreateEscrow {
    pub config: ConfigAccount,
    pub escrow: EscrowAccount,
    pub vault: VaultSlot,
    pub usdc_mint: Pubkey,
    pub payer: Signer,
}

/// Pays into an escrow.
#[derive(Clone, Copy, Debug, PartialEq, Eq)]
pub struct Deposit {
    pub config: ConfigAccount,
    pub escrow: EscrowAccount,
    pub vault: TokenAccount,
    pub depositor_token_account: TokenAccount,
    pub usdc_mint: Pubkey,
    pub depositor: Signer,
}

/// Pays the merchant.
#[derive(Clone, Copy, Debug, PartialEq, Eq)]
pub struct Release {
    pub config: ConfigAccount,
    pub escrow: EscrowAccount,
    pub vault: TokenAccount,
    pub merchant_token_account: TokenAccount,
    pub admin: Signer,
}

/// Pays the customer back; the caller can be anyone.
#[derive(Clone, Copy, Debug, PartialEq, Eq)]
pub struct RefundAfterExpiry {
    pub config: ConfigAccount,
    pub escrow: EscrowAccount,
    pub vault: TokenAccount,
    pub depositor_token_account: TokenAccount,
    pub usdc_mint: Pubkey,
    pub caller: Signer,
}

/// Closes an escrow that holds no funds.
#[derive(Clone, Copy, Debug, PartialEq, Eq)]
pub struct CancelPending {
    pub config: ConfigAccount,
    pub escrow: EscrowAccount,
    pub vault: TokenAccount,
    pub usdc_mint: Pubkey,
    pub merchant: Signer,
}

/// The addresses at which an instruction on an existing escrow expects its
/// accounts, as derived; `None` where a derivation has no result.
#[derive(Clone, Copy, Debug, PartialEq, Eq)]
pub struct DerivedAddresses {
    pub escrow: Option<Pubkey>,
    pub vault: Option<Pubkey>,
}

/// The bytes of [`DerivedAddresses`].
pub struct DerivedAddressesView {
    pub escrow: Option<Seq<u8>>,
    pub vault: Option<Seq<u8>>,
}

impl View for DerivedAddresses {
    type V = DerivedAddressesView;

    open spec fn view(&self) -> DerivedAddressesView {
        DerivedAddressesView { escrow: key_bytes(self.escrow), vault: key_bytes(self.vault) }
    }
}

/// Where an instruction for `payment_id` expects the escrow and the vault: the
/// escrow at the address of its payment with its recorded bump, the vault at
/// the escrow's associated token account for `mint`.
pub open spec fn derived_addresses(
    payment_id: Seq<u8>,
    escrow: EscrowAccount,
    mint: Pubkey,
) -> DerivedAddressesView {
    DerivedAddressesView {
        escrow: escrow_address(payment_id, escrow.data.bump),
        vault: associated_token_address(escrow.key@, mint@),
    }
}

/// Derives where the escrow and the vault of an instruction must be.
pub fn derive_addresses(payment_id: &[u8; 32], escrow: &EscrowAccount, mint: &Pubkey) -> (r:
    DerivedAddresses)
    ensures
        r@ == derived_addresses(payment_id@, *escrow, *mint),
{
    DerivedAddresses {
        escrow: derive_escrow_address(payment_id, escrow.data.bump),
        vault: derive_associated_token_address(&escrow.key, mint),
    }
}

/// The outcome of a series of tests: the first refusal, or success.
pub open spec fn verdict(refusal: Option<InstructionError>) -> Result<(), InstructionError> {
    match refusal {
        Some(e) => Err(e),
        None => Ok(()),
    }
}

/// Whether an account sits at a derived address.
fn is_at(key: &Pubkey, address: &Option<Pubkey>) -> (r: bool)
    ensures
        r == (key_bytes(*address) == Some(key@)),
{
    match address {
        Some(a) => {
            proof {
                law_same_bytes_same_key(*key, *a);
            }
            *key == *a
        },
        None => false,
    }
}

/// The records that an instruction on an existing escrow works on are there.
pub open spec fn loading_refusal(config: ConfigAccount, escrow: EscrowAccount) -> Option<
    InstructionError,
> {
    if !config.in_use || !escrow.in_use {
        Some(InstructionError::AccountNotInitialized)
    } else {
        None
    }
}

fn check_loaded(config: &ConfigAccount, escrow: &EscrowAccount) -> (r: Result<
    (),
    InstructionError,
>)
    ensures
        r == verdict(loading_refusal(*config, *escrow)),
{
    if !config.in_use || !escrow.in_use {
        return Err(InstructionError::AccountNotInitialized);
    }
    Ok(())
}

/// The config is the one and only: it sits at its address.
pub open spec fn config_refusal(
    config: ConfigAccount,
    config_address: Option<Seq<u8>>,
) -> Option<InstructionError> {
    if config_address != Some(config.key@) {
        Some(InstructionError::Account(Constraint::Seeds))
    } else {
        None
    }
}

fn check_config(config: &ConfigAccount, config_address: &Option<Pubkey>) -> (r: Result<
    (),
    InstructionError,
>)
    ensures
        r == verdict(config_refusal(*config, key_bytes(*config_address))),
{
    if !is_at(&config.key, config_address) {
        return Err(InstructionError::Account(Constraint::Seeds));
    }
    Ok(())
}

/// The properties of the escrow account of a later instruction.
pub open spec fn escrow_refusal(
    escrow: EscrowAccount,
    addresses: DerivedAddressesView,
) -> Option<InstructionError> {
    if addresses.escrow != Some(escrow.key@) {
        Some(InstructionError::Account(Constraint::Seeds))
    } else if !escrow.is_writable {
        Some(InstructionError::Account(Constraint::Mut))
    } else {
        None
    }
}

fn check_escrow(escrow: &EscrowAccount, addresses: &DerivedAddresses) -> (r: Result<
    (),
    InstructionError,
>)
    ensures
        r == verdict(escrow_refusal(*escrow, addresses@)),
{
    if !is_at(&escrow.key, &addresses.escrow) {
        return Err(InstructionError::Account(Constraint::Seeds));
    }
    if !escrow.is_writable {
        return Err(InstructionError::Account(Constraint::Mut));
    }
    Ok(())
}

/// The properties of an escrow's vault.
pub open spec fn vault_refusal(
    vault: TokenAccount,
    authority: Pubkey,
    addresses: DerivedAddressesView,
) -> Option<InstructionError> {
    if vault.owner != authority {
        Some(InstructionError::Account(Constraint::TokenOwner))
    } else if addresses.vault is None {
        Some(InstructionError::NoProgramAddress)
    } else if addresses.vault != Some(vault.key@) {
        Some(InstructionError::Account(Constraint::Associated))
    } else if !vault.is_writable {
        Some(InstructionError::Account(Constraint::Mut))
    } else {
        None
    }
}

fn check_vault(vault: &TokenAccount, authority: &Pubkey, addresses: &DerivedAddresses) -> (r:
    Result<(), InstructionError>)
    ensures
        r == verdict(vault_refusal(*vault, *authority, addresses@)),
{
    if vault.owner != *authority {
        return Err(InstructionError::Account(Constraint::TokenOwner));
    }
    if addresses.vault.is_none() {
        return Err(InstructionError::NoProgramAddress);
    }
    if !is_at(&vault.key, &addresses.vault) {
        return Err(InstructionError::Account(Constraint::Associated));
    }
    if !vault.is_writable {
        return Err(InstructionError::Account(Constraint::Mut));
    }
    Ok(())
}

/// Whether an address is taken, given the program that owns what is there and
/// the length of its data. An address that holds nothing but lamports belongs
/// to the system program, whose own address is all zeroes, and is still free.
pub open spec fn occupied(owner: Seq<u8>, data_len: usize) -> bool {
    owner != zero_bytes() || data_len > 0
}

/// Tests whether an address is taken.
pub fn is_occupied(owner: &Pubkey, data_len: usize) -> (r: bool)
    ensures
        r == occupied(owner@, data_len),
{
    let system_program = Pubkey::default();
    proof {
        law_same_bytes_same_key(*owner, system_program);
    }
    *owner != system_program || data_len > 0
}

/// The bump of a record that is to be created: at the address found for it,
/// where there is no account yet.
///
/// An account that is not writable is refused as [`Constraint::Mut`]; the
/// runtime, asked to create it all the same, would abort the transaction for
/// want of a privilege.
pub open spec fn created_bump(
    key: Pubkey,
    is_writable: bool,
    in_use: bool,
    found: Option<(Seq<u8>, u8)>,
) -> Result<u8, InstructionError> {
    match found {
        None => Err(InstructionError::NoProgramAddress),
        Some((address, bump)) => if key@ != address {
            Err(InstructionError::Account(Constraint::Seeds))
        } else if in_use {
            Err(InstructionError::AccountInUse)
        } else if !is_writable {
            Err(InstructionError::Account(Constraint::Mut))
        } else {
            Ok(bump)
        },
    }
}

fn check_created(
    key: &Pubkey,
    is_writable: bool,
    in_use: bool,
    found: &Option<(Pubkey, u8)>,
) -> (r: Result<u8, InstructionError>)
    ensures
        r == created_bump(*key, is_writable, in_use, found_bytes(*found)),
{
    match found {
        None => Err(InstructionError::NoProgramAddress),
        Some((address, bump)) => {
            proof {
                law_same_bytes_same_key(*key, *address);
            }
            if *key != *address {
                return Err(InstructionError::Account(Constraint::Seeds));
            }
            if in_use {
                return Err(InstructionError::AccountInUse);
            }
            if !is_writable {
                return Err(InstructionError::Account(Constraint::Mut));
            }
            Ok(*bump)
        },
    }
}

/// The vault of a new escrow: at the escrow's associated token account, where
/// there is no account yet.
///
/// One at another address is refused as [`Constraint::Associated`], and one
/// that is not writable as [`Constraint::Mut`]. The associated token program,
/// asked to create them all the same, would refuse the first for invalid seeds,
/// and the runtime would abort on the second for want of a privilege.
pub open spec fn new_vault_refusal(
    vault: VaultSlot,
    vault_address: Option<Seq<u8>>,
) -> Option<InstructionError> {
    if vault_address is None {
        Some(InstructionError::NoProgramAddress)
    } else if vault_address != Some(vault.key@) {
        Some(InstructionError::Account(Constraint::Associated))
    } else if vault.in_use {
        Some(InstructionError::VaultInUse)
    } else if !vault.is_writable {
        Some(InstructionError::Account(Constraint::Mut))
    } else {
        None
    }
}

fn check_new_vault(vault: &VaultSlot, vault_address: &Option<Pubkey>) -> (r: Result<
    (),
    InstructionError,
>)
    ensures
        r == verdict(new_vault_refusal(*vault, key_bytes(*vault_address))),
{
    if vault_address.is_none() {
        return Err(InstructionError::NoProgramAddress);
    }
    if !is_at(&vault.key, vault_address) {
        return Err(InstructionError::Account(Constraint::Associated));
    }
    if vault.in_use {
        return Err(InstructionError::VaultInUse);
    }
    if !vault.is_writable {
        return Err(InstructionError::Account(Constraint::Mut));
    }
    Ok(())
}

impl InitializeConfig {
    /// The bump of the config, or the first declared property that fails,
    /// given where the config is to be created.
    pub open spec fn accounts_bump(self, found: Option<(Seq<u8>, u8)>) -> Result<
        u8,
        InstructionError,
    > {
        match created_bump(self.config.key, self.config.is_writable, self.config.in_use, found) {
            Err(e) => Err(e),
            Ok(bump) => if !self.payer.is_writable {
                Err(InstructionError::Account(Constraint::Mut))
            } else {
                Ok(bump)
            },
        }
    }

    /// Tests the declared properties in their order.
    pub fn check_accounts(&self, found: &Option<(Pubkey, u8)>) -> (r: Result<u8, InstructionError>)
        ensures
            r == self.accounts_bump(found_bytes(*found)),
    {
        let bump: u8 = check_created(
            &self.config.key,
            self.config.is_writable,
            self.config.in_use,
            found,
        )?;
        if !self.payer.is_writable {
            return Err(InstructionError::Account(Constraint::Mut));
        }
        Ok(bump)
    }
}

impl CreateEscrow {
    /// The bump of the escrow, or the first thing that is wrong with the
    /// accounts, given where the escrow and the vault are to be created and
    /// where the config must be.
    pub open spec fn accounts_bump(
        self,
        found: Option<(Seq<u8>, u8)>,
        vault_address: Option<Seq<u8>>,
        config_address: Option<Seq<u8>>,
    ) -> Result<u8, InstructionError> {
        if !self.config.in_use {
            Err(InstructionError::AccountNotInitialized)
        } else {
            match created_bump(
                self.escrow.key,
                self.escrow.is_writable,
                self.escrow.in_use,
                found,
            ) {
                Err(e) => Err(e),
                Ok(bump) => if new_vault_refusal(self.vault, vault_address) is Some {
                    Err(new_vault_refusal(self.vault, vault_address)->0)
                } else if config_refusal(self.config, config_address) is Some {
                    Err(config_refusal(self.config, config_address)->0)
                } else if self.usdc_mint != self.config.data.usdc_mint {
                    Err(InstructionError::Account(Constraint::Address))
                } else if !self.payer.is_writable {
                    Err(InstructionError::Account(Constraint::Mut))
                } else {
                    Ok(bump)
                },
            }
        }
    }

    /// Tests the declared properties in their order.
    pub fn check_accounts(
        &self,
        found: &Option<(Pubkey, u8)>,
        vault_address: &Option<Pubkey>,
        config_address: &Option<Pubkey>,
    ) -> (r: Result<u8, InstructionError>)
        ensures
            r == self.accounts_bump(
                found_bytes(*found),
                key_bytes(*vault_address),
                key_bytes(*config_address),
            ),
    {
        if !self.config.in_use {
            return Err(InstructionError::AccountNotInitialized);
        }
        let bump: u8 = check_created(
            &self.escrow.key,
            self.escrow.is_writable,
            self.escrow.in_use,
            found,
        )?;
        check_new_vault(&self.vault, vault_address)?;
        check_config(&self.config, config_address)?;
        if self.usdc_mint != self.config.data.usdc_mint {
            return Err(InstructionError::Account(Constraint::Address));
        }
        if !self.payer.is_writable {
            return Err(InstructionError::Account(Constraint::Mut));
        }
        Ok(bump)
    }
}

impl Deposit {
    /// The first thing that is wrong with the accounts.
    pub open spec fn accounts_refusal(
        self,
        config_address: Option<Seq<u8>>,
        addresses: DerivedAddressesView,
    ) -> Option<InstructionError> {
        if loading_refusal(self.config, self.escrow) is Some {
            loading_refusal(self.config, self.escrow)
        } else if config_refusal(self.config, config_address) is Some {
            config_refusal(self.config, config_address)
        } else if escrow_refusal(self.escrow, addresses) is Some {
            escrow_refusal(self.escrow, addresses)
        } else if vault_refusal(self.vault, self.escrow.key, addresses) is Some {
            vault_refusal(self.vault, self.escrow.key, addresses)
        } else if !self.depositor_token_account.is_writable {
            Some(InstructionError::Account(Constraint::Mut))
        } else if self.depositor_token_account.mint != self.usdc_mint {
            Some(InstructionError::Escrow(EscrowError::WrongMint))
        } else if self.depositor_token_account.owner != self.depositor.key {
            Some(InstructionError::Escrow(EscrowError::WrongDepositor))
        } else if self.usdc_mint != self.config.data.usdc_mint {
            Some(InstructionError::Account(Constraint::Address))
        } else if !self.depositor.is_writable {
            Some(InstructionError::Account(Constraint::Mut))
        } else {
            None
        }
    }

    /// Tests the declared properties in their order.
    pub fn check_accounts(
        &self,
        config_address: &Option<Pubkey>,
        addresses: &DerivedAddresses,
    ) -> (r: Result<(), InstructionError>)
        ensures
            r == verdict(self.accounts_refusal(key_bytes(*config_address), addresses@)),
    {
        check_loaded(&self.config, &self.escrow)?;
        check_config(&self.config, config_address)?;
        check_escrow(&self.escrow, addresses)?;
        check_vault(&self.vault, &self.escrow.key, addresses)?;
        if !self.depositor_token_account.is_writable {
            return Err(InstructionError::Account(Constraint::Mut));
        }
        if self.depositor_token_account.mint != self.usdc_mint {
            return Err(InstructionError::Escrow(EscrowError::WrongMint));
        }
        if self.depositor_token_account.owner != self.depositor.key {
            return Err(InstructionError::Escrow(EscrowError::WrongDepositor));
        }
        if self.usdc_mint != self.config.data.usdc_mint {
            return Err(InstructionError::Account(Constraint::Address));
        }
        if !self.depositor.is_writable {
            return Err(InstructionError::Account(Constraint::Mut));
        }
        Ok(())
    }
}

impl Release {
    /// The first thing that is wrong with the accounts.
    pub open spec fn accounts_refusal(
        self,
        config_address: Option<Seq<u8>>,
        addresses: DerivedAddressesView,
    ) -> Option<InstructionError> {
        if loading_refusal(self.config, self.escrow) is Some {
            loading_refusal(self.config, self.escrow)
        } else if config_refusal(self.config, config_address) is Some {
            config_refusal(self.config, config_address)
        } else if escrow_refusal(self.escrow, addresses) is Some {
            escrow_refusal(self.escrow, addresses)
        } else if vault_refusal(self.vault, self.escrow.key, addresses) is Some {
            vault_refusal(self.vault, self.escrow.key, addresses)
        } else if !self.merchant_token_account.is_writable {
            Some(InstructionError::Account(Constraint::Mut))
        } else if self.merchant_token_account.owner != self.escrow.data.merchant {
            Some(InstructionError::Escrow(EscrowError::WrongMerchant))
        } else if self.admin.key != self.config.data.admin {
            Some(InstructionError::Escrow(EscrowError::UnauthorizedAdmin))
        } else {
            None
        }
    }

    /// Tests the declared properties in their order.
    pub fn check_accounts(
        &self,
        config_address: &Option<Pubkey>,
        addresses: &DerivedAddresses,
    ) -> (r: Result<(), InstructionError>)
        ensures
            r == verdict(self.accounts_refusal(key_bytes(*config_address), addresses@)),
    {
        check_loaded(&self.config, &self.escrow)?;
        check_config(&self.config, config_address)?;
        check_escrow(&self.escrow, addresses)?;
        check_vault(&self.vault, &self.escrow.key, addresses)?;
        if !self.merchant_token_account.is_writable {
            return Err(InstructionError::Account(Constraint::Mut));
        }
        if self.merchant_token_account.owner != self.escrow.data.merchant {
            return Err(InstructionError::Escrow(EscrowError::WrongMerchant));
        }
        if self.admin.key != self.config.data.admin {
            return Err(InstructionError::Escrow(EscrowError::UnauthorizedAdmin));
        }
        Ok(())
    }
}

impl RefundAfterExpiry {
    /// The first thing that is wrong with the accounts.
    pub open spec fn accounts_refusal(
        self,
        config_address: Option<Seq<u8>>,
        addresses: DerivedAddressesView,
    ) -> Option<InstructionError> {
        if loading_refusal(self.config, self.escrow) is Some {
            loading_refusal(self.config, self.escrow)
        } else if config_refusal(self.config, config_address) is Some {
            config_refusal(self.config, config_address)
        } else if escrow_refusal(self.escrow, addresses) is Some {
            escrow_refusal(self.escrow, addresses)
        } else if vault_refusal(self.vault, self.escrow.key, addresses) is Some {
            vault_refusal(self.vault, self.escrow.key, addresses)
        } else if !self.depositor_token_account.is_writable {
            Some(InstructionError::Account(Constraint::Mut))
        } else if self.usdc_mint != self.config.data.usdc_mint {
            Some(InstructionError::Account(Constraint::Address))
        } else {
            None
        }
    }

    /// Tests the declared properties in their order.
    pub fn check_accounts(
        &self,
        config_address: &Option<Pubkey>,
        addresses: &DerivedAddresses,
    ) -> (r: Result<(), InstructionError>)
        ensures
            r == verdict(self.accounts_refusal(key_bytes(*config_address), addresses@)),
    {
        check_loaded(&self.config, &self.escrow)?;
        check_config(&self.config, config_address)?;
        check_escrow(&self.escrow, addresses)?;
        check_vault(&self.vault, &self.escrow.key, addresses)?;
        if !self.depositor_token_account.is_writable {
            return Err(InstructionError::Account(Constraint::Mut));
        }
        if self.usdc_mint != self.config.data.usdc_mint {
            return Err(InstructionError::Account(Constraint::Address));
        }
        Ok(())
    }
}

impl CancelPending {
    /// The first thing that is wrong with the accounts.
    pub open spec fn accounts_refusal(
        self,
        config_address: Option<Seq<u8>>,
        addresses: DerivedAddressesView,
    ) -> Option<InstructionError> {
        if loading_refusal(self.config, self.escrow) is Some {
            loading_refusal(self.config, self.escrow)
        } else if config_refusal(self.config, config_address) is Some {
            config_refusal(self.config, config_address)
        } else if escrow_refusal(self.escrow, addresses) is Some {
            escrow_refusal(self.escrow, addresses)
        } else if self.escrow.key == self.merchant.key {
            Some(InstructionError::Account(Constraint::Close))
        } else if vault_refusal(self.vault, self.escrow.key, addresses) is Some {
            vault_refusal(self.vault, self.escrow.key, addresses)
        } else if self.usdc_mint != self.config.data.usdc_mint {
            Some(InstructionError::Account(Constraint::Address))
        } else if !self.merchant.is_writable {
            Some(InstructionError::Account(Constraint::Mut))
        } else {
            None
        }
    }

    /// Tests the declared properties in their order.
    pub fn check_accounts(
        &self,
        config_address: &Option<Pubkey>,
        addresses: &DerivedAddresses,
    ) -> (r: Result<(), InstructionError>)
        ensures
            r == verdict(self.accounts_refusal(key_bytes(*config_address), addresses@)),
    {
        check_loaded(&self.config, &self.escrow)?;
        check_config(&self.config, config_address)?;
        check_escrow(&self.escrow, addresses)?;
        if self.escrow.key == self.merchant.key {
            return Err(InstructionError::Account(Constraint::Close));
        }
        check_vault(&self.vault, &self.escrow.key, addresses)?;
        if self.usdc_mint != self.config.data.usdc_mint {
            return Err(InstructionError::Account(Constraint::Address));
        }
        if !self.merchant.is_writable {
            return Err(InstructionError::Account(Constraint::Mut));
        }
        Ok(())
    }
}

} // verus!
