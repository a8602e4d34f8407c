//! What the program announces after each accepted instruction.

use vstd::prelude::*;

use crate::pubkey::Pubkey;

verus! {

#[derive(Clone, Copy, Debug, PartialEq, Eq)]
pub struct ConfigInitialized {
    pub admin: Pubkey,
    pub usdc_mint: Pubkey,
}

#[derive(Clone, Copy, Debug, PartialEq, Eq)]
pub struct EscrowCreated {
    pub payment_id: [u8; 32],
    pub merchant: Pubkey,
    pub amount: u64,
}

#[derive(Clone, Copy, Debug, PartialEq, Eq)]
pub struct EscrowFunded {
    pub payment_id: [u8; 32],
    pub depositor: Pubkey,
    pub expiry: i64,
}

#[derive(Clone, Copy, Debug, PartialEq, Eq)]
pub struct EscrowReleased {
    pub payment_id: [u8; 32],
    pub merchant: Pubkey,
    pub amount: u64,
}

#[derive(Clone, Copy, Debug, PartialEq, Eq)]
pub struct EscrowRefunded {
    pub payment_id: [u8; 32],
    pub depositor: Pubkey,
    pub amount: u64,
}

#[derive(Clone, Copy, Debug, PartialEq, Eq)]
pub struct EscrowCancelled {
    pub payment_id: [u8; 32],
}

} // verus!
