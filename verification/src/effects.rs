//! What an accepted instruction asks other programs to do: create accounts,
//! move tokens, close token accounts.

use vstd::prelude::*;

use crate::accounts::TokenAccount;
use crate::address::{config_seeds, config_signer_seeds, escrow_seeds, escrow_signer_seeds};
use crate::pubkey::Pubkey;

verus! {

/// The program's signature for the escrow of `payment_id`.
#[derive(Clone, Copy, Debug, PartialEq, Eq)]
pub struct EscrowSigner {
    pub payment_id: [u8; 32],
    pub bump: u8,
}

impl EscrowSigner {
    /// The seeds that the signature stands for.
    pub open spec fn seeds_spec(self) -> Seq<Seq<u8>> {
        escrow_seeds(self.payment_id@).push(seq![self.bump])
    }

    /// The seeds to sign with.
    pub fn seeds(&self) -> (r: Vec<Vec<u8>>)
        ensures
            r.deep_view() == self.seeds_spec(),
    {
        escrow_signer_seeds(&self.payment_id, self.bump)
    }
}

/// The program's signature for a record that it creates.
#[derive(Clone, Copy, Debug, PartialEq, Eq)]
pub enum RecordSigner {
    /// For the config with this bump.
    Config(u8),
    Escrow(EscrowSigner),
}

impl RecordSigner {
    /// The seeds that the signature stands for.
    pub open spec fn seeds_spec(self) -> Seq<Seq<u8>> {
        match self {
            RecordSigner::Config(bump) => config_seeds().push(seq![bump]),
            RecordSigner::Escrow(signer) => signer.seeds_spec(),
        }
    }

    /// The seeds to sign with.
    pub fn seeds(&self) -> (r: Vec<Vec<u8>>)
        ensures
            r.deep_view() == self.seeds_spec(),
    {
        match self {
            RecordSigner::Config(bump) => config_signer_seeds(*bump),
            RecordSigner::Escrow(signer) => signer.seeds(),
        }
    }
}

/// Creates an account for a record of this program.
#[derive(Clone, Copy, Debug, PartialEq, Eq)]
pub struct NewRecord {
    pub account: Pubkey,
    /// Who pays the rent.
    pub payer: Pubkey,
    /// How many bytes it holds.
    pub space: usize,
    /// The program that it belongs to.
    pub owner: Pubkey,
    pub signer: RecordSigner,
}

/// Creates the associated token account of `authority` for `mint`.
#[derive(Clone, Copy, Debug, PartialEq, Eq)]
pub struct NewVault {
    pub account: Pubkey,
    /// Who pays the rent.
    pub payer: Pubkey,
    /// Who may spend from it.
    pub authority: Pubkey,
    pub mint: Pubkey,
}

impl NewVault {
    /// Whether `account` is the token account that was asked for.
    pub open spec fn describes(self, account: TokenAccount) -> bool {
        &&& account.key == self.account
        &&& account.owner == self.authority
        &&& account.mint == self.mint
    }
}

/// Moves `amount` tokens between two token accounts.
#[derive(Clone, Copy, Debug, PartialEq, Eq)]
pub struct TokenTransfer {
    pub from: Pubkey,
    pub to: Pubkey,
    /// Whose tokens they are.
    pub authority: Pubkey,
    pub amount: u64,
    /// The program's own signature; without one the authority has signed the
    /// transaction itself.
    pub signer: Option<EscrowSigner>,
}

/// Closes an empty token account and hands its rent to `destination`. The token
/// program refuses to close an account that holds tokens.
#[derive(Clone, Copy, Debug, PartialEq, Eq)]
pub struct CloseTokenAccount {
    pub account: Pubkey,
    pub destination: Pubkey,
    pub authority: Pubkey,
    pub signer: EscrowSigner,
}

/// The program signs for an escrow with the word `escrow`, the whole payment id
/// and the bump, and for the config with the word `config` and the bump.
pub proof fn law_what_the_program_signs_with(signer: EscrowSigner, bump: u8)
    ensures
        signer.seeds_spec() == seq![
            seq![101u8, 115, 99, 114, 111, 119],
            signer.payment_id@,
            seq![signer.bump],
        ],
        RecordSigner::Escrow(signer).seeds_spec() == signer.seeds_spec(),
        RecordSigner::Config(bump).seeds_spec() == seq![
            seq![99u8, 111, 110, 102, 105, 103],
            seq![bump],
        ],
{
    assert(signer.seeds_spec() =~= seq![
        seq![101u8, 115, 99, 114, 111, 119],
        signer.payment_id@,
        seq![signer.bump],
    ]);
    assert(RecordSigner::Config(bump).seeds_spec() =~= seq![
        seq![99u8, 111, 110, 102, 105, 103],
        seq![bump],
    ]);
}

/// Signatures for different payments are different.
pub proof fn law_signatures_determine_the_payment(a: EscrowSigner, b: EscrowSigner)
    ensures
        a.seeds_spec() == b.seeds_spec() ==> a.payment_id@ == b.payment_id@ && a.bump == b.bump,
{
    if a.seeds_spec() == b.seeds_spec() {
        assert(a.seeds_spec()[1] == a.payment_id@);
        assert(b.seeds_spec()[1] == b.payment_id@);
        assert(a.seeds_spec()[2] == seq![a.bump]);
        assert(b.seeds_spec()[2] == seq![b.bump]);
        assert(seq![a.bump][0] == seq![b.bump][0]);
    }
}

} // verus!
