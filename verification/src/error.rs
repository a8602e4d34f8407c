//! Why an instruction is refused.

use vstd::prelude::*;

verus! {

/// The refusals of the escrow rules themselves.
#[derive(Clone, Copy, Debug, PartialEq, Eq, Structural)]
pub enum EscrowError {
    InvalidStatus,
    InvalidAmount,
    InvalidBounds,
    PaymentWindowOutOfBounds,
    GracePeriodOutOfBounds,
    ReleaseWindowPassed,
    StillInReleaseWindow,
    UnauthorizedAdmin,
    UnauthorizedMerchant,
    WrongMerchant,
    WrongDepositor,
    WrongMint,
    MathOverflow,
}

impl EscrowError {
    pub open spec fn message_spec(self) -> Seq<char> {
        match self {
            EscrowError::InvalidStatus => "Escrow is not in the required status for this action"@,
            EscrowError::InvalidAmount => "Amount must be greater than zero"@,
            EscrowError::InvalidBounds => "Configuration bounds are invalid"@,
            EscrowError::PaymentWindowOutOfBounds =>
                "Payment window is outside the configured bounds"@,
            EscrowError::GracePeriodOutOfBounds =>
                "Grace period is outside the configured bounds"@,
            EscrowError::ReleaseWindowPassed =>
                "The release window has passed; funds can only be refunded now"@,
            EscrowError::StillInReleaseWindow =>
                "Still within the release window; refund not yet available"@,
            EscrowError::UnauthorizedAdmin => "Only the configured admin may release funds"@,
            EscrowError::UnauthorizedMerchant =>
                "Only the recorded merchant may perform this action"@,
            EscrowError::WrongMerchant =>
                "Provided merchant token account does not match the recorded merchant"@,
            EscrowError::WrongDepositor =>
                "Provided token account does not match the recorded depositor"@,
            EscrowError::WrongMint => "Provided token account uses the wrong mint"@,
            EscrowError::MathOverflow => "Arithmetic overflow"@,
        }
    }

    /// The sentence shown to a user.
    pub fn message(&self) -> (r: &'static str)
        ensures
            r@ == self.message_spec(),
    {
        match self {
            EscrowError::InvalidStatus => "Escrow is not in the required status for this action",
            EscrowError::InvalidAmount => "Amount must be greater than zero",
            EscrowError::InvalidBounds => "Configuration bounds are invalid",
            EscrowError::PaymentWindowOutOfBounds =>
                "Payment window is outside the configured bounds",
            EscrowError::GracePeriodOutOfBounds => "Grace period is outside the configured bounds",
            EscrowError::ReleaseWindowPassed =>
                "The release window has passed; funds can only be refunded now",
            EscrowError::StillInReleaseWindow =>
                "Still within the release window; refund not yet available",
            EscrowError::UnauthorizedAdmin => "Only the configured admin may release funds",
            EscrowError::UnauthorizedMerchant =>
                "Only the recorded merchant may perform this action",
            EscrowError::WrongMerchant =>
                "Provided merchant token account does not match the recorded merchant",
            EscrowError::WrongDepositor =>
                "Provided token account does not match the recorded depositor",
            EscrowError::WrongMint => "Provided token account uses the wrong mint",
            EscrowError::MathOverflow => "Arithmetic overflow",
        }
    }
}

/// The declared properties of an instruction's accounts that can fail.
#[derive(Clone, Copy, Debug, PartialEq, Eq, Structural)]
pub enum Constraint {
    /// The account is not writable.
    Mut,
    /// The account is not at the address that its seeds derive.
    Seeds,
    /// The token account does not belong to the expected authority.
    TokenOwner,
    /// The token account is not the authority's associated token account.
    Associated,
    /// The account is not at the recorded address.
    Address,
    /// The account to be closed would receive its own rent.
    Close,
}

/// Everything for which an instruction is refused.
#[derive(Clone, Copy, Debug, PartialEq, Eq, Structural)]
pub enum InstructionError {
    /// A rule of the escrow.
    Escrow(EscrowError),
    /// A property that the accounts must have.
    Account(Constraint),
    /// The record that the instruction works on is not there.
    AccountNotInitialized,
    /// The record that the instruction creates is there already.
    AccountInUse,
    /// The vault that the instruction creates is there already.
    VaultInUse,
    /// The payout would go from the vault into the vault.
    PayoutIntoVault,
    /// No bump seed yields a program address, which aborts the transaction.
    NoProgramAddress,
    /// The clock could not be read; holds the runtime's error code.
    Clock(u64),
}

} // verus!
