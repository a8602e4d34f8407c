//! The records that the program keeps on chain.

use vstd::prelude::*;

use crate::pubkey::{zero_bytes, Pubkey};

verus! {

/// The program-wide settings, written once.
#[derive(Clone, Copy, Debug, PartialEq, Eq)]
pub struct Config {
    /// The only key that may release funds to a merchant.
    pub admin: Pubkey,
    /// The accepted stablecoin.
    pub usdc_mint: Pubkey,
    pub min_payment_window: i64,
    pub max_payment_window: i64,
    pub min_grace_period: i64,
    pub max_grace_period: i64,
    pub bump: u8,
}

impl Config {
    /// Bytes of the stored record: an 8 byte discriminator, two keys, four
    /// 8 byte integers and the bump.
    pub const LEN: usize = 8 + 32 + 32 + (4 * 8) + 1;

    /// Both timing ranges are non-empty and hold positive lengths only.
    pub open spec fn wf(self) -> bool {
        &&& 0 < self.min_payment_window <= self.max_payment_window
        &&& 0 < self.min_grace_period <= self.max_grace_period
    }

    /// The timing values lie within the ranges.
    pub open spec fn allows(self, payment_window: i64, grace_period: i64) -> bool {
        &&& self.min_payment_window <= payment_window <= self.max_payment_window
        &&& self.min_grace_period <= grace_period <= self.max_grace_period
    }
}

/// Where an escrow stands: `Pending -> Funded -> Released | Refunded`.
#[derive(Clone, Copy, Debug, PartialEq, Eq, Structural)]
pub enum EscrowStatus {
    /// Created, holds no funds.
    Pending,
    /// Holds the customer's payment.
    Funded,
    /// The payment went to the merchant.
    Released,
    /// The payment went back to the customer.
    Refunded,
}

/// One payment's escrow.
#[derive(Clone, Copy, Debug, PartialEq, Eq)]
pub struct Escrow {
    pub payment_id: [u8; 32],
    /// Who paid; all zeroes until the deposit.
    pub depositor: Pubkey,
    pub merchant: Pubkey,
    pub amount: u64,
    /// Seconds from the deposit to `expiry`.
    pub payment_window: i64,
    /// Seconds after `expiry` in which a release is still possible.
    pub grace_period: i64,
    /// Unix time; zero until the deposit.
    pub expiry: i64,
    pub status: EscrowStatus,
    pub bump: u8,
}

impl Escrow {
    /// Bytes of the stored record: an 8 byte discriminator, the payment id,
    /// two keys, four 8 byte integers, the status and the bump.
    pub const LEN: usize = 8 + 32 + 32 + 32 + 8 + 8 + 8 + 8 + 1 + 1;

    /// What holds of an escrow at every point of its life.
    pub open spec fn wf(self) -> bool {
        &&& self.amount > 0
        &&& self.payment_window > 0
        &&& self.grace_period > 0
        &&& self.status == EscrowStatus::Pending ==> {
            &&& self.depositor@ == zero_bytes()
            &&& self.expiry == 0
        }
    }

    /// The last second at which a release is possible, as an unbounded integer.
    pub open spec fn release_deadline(self) -> int {
        self.expiry + self.grace_period
    }

    /// The parts that are fixed when the escrow is created.
    pub open spec fn same_terms(self, other: Escrow) -> bool {
        &&& self.payment_id == other.payment_id
        &&& self.merchant == other.merchant
        &&& self.amount == other.amount
        &&& self.payment_window == other.payment_window
        &&& self.grace_period == other.grace_period
        &&& self.bump == other.bump
    }
}

} // verus!
