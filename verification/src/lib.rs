//! Escrow of stablecoin payments between a customer and a merchant.
//!
//! One escrow holds one payment until an admin releases it to the merchant or,
//! once the release window has closed, anyone sends it back to the customer:
//! `Pending -> Funded -> Released | Refunded`. The library decides; moving
//! tokens, creating accounts and announcing events is left to the program that
//! embeds it.
//!
//! - [`instructions`] holds the six instructions,
//! - [`instruction_laws`] what each of them accepts, does and refuses,
//! - [`accounts`] what each of them demands of its accounts,
//! - [`account_laws`] which accounts pass, and what a refusal tells,
//! - [`lifecycle`] what holds of an escrow over its whole life.

pub mod account_laws;
pub mod accounts;
pub mod address;
pub mod clock;
pub mod effects;
pub mod error;
pub mod events;
pub mod instruction_laws;
pub mod instructions;
pub mod lifecycle;
pub mod pubkey;
pub mod state;
