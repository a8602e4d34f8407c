//! Where the program's accounts live.
//!
//! The config, the escrows and the vaults sit at addresses that are derived
//! from seeds and a program id, so that an account can be recognised by its
//! address alone.

use vstd::prelude::*;
use vstd::slice::slice_to_vec;

use crate::pubkey::Pubkey;

verus! {

/// The bytes of an address, where there is one.
pub open spec fn key_bytes(key: Option<Pubkey>) -> Option<Seq<u8>> {
    match key {
        Some(k) => Some(k@),
        None => None,
    }
}

/// The bytes of an address and its bump, where there is one.
pub open spec fn found_bytes(found: Option<(Pubkey, u8)>) -> Option<(Seq<u8>, u8)> {
    match found {
        Some((k, bump)) => Some((k@, bump)),
        None => None,
    }
}

/// What `Pubkey::create_program_address` derives from seeds that include
/// their bump; `None` where it refuses them.
pub uninterp spec fn program_address(seeds: Seq<Seq<u8>>, program_id: Seq<u8>) -> Option<Seq<u8>>;

/// What `Pubkey::try_find_program_address` derives from seeds without a bump:
/// the address and the bump that it added; `None` where no bump works.
pub uninterp spec fn found_program_address(
    seeds: Seq<Seq<u8>>,
    program_id: Seq<u8>,
) -> Option<(Seq<u8>, u8)>;

/// Calls `anchor_lang::prelude::Pubkey::create_program_address`.
///
/// Claimed: the outcome depends on the seeds and the program id alone. Which
/// address a given list of seeds hashes to is not said; every error of the
/// call comes back as `None`.
#[verifier::external_body]
fn create_program_address(seeds: &Vec<Vec<u8>>, program_id: &Pubkey) -> (r: Option<Pubkey>)
    ensures
        key_bytes(r) == program_address(seeds.deep_view(), program_id@),
{
    let slices: Vec<&[u8]> = seeds.iter().map(|seed| seed.as_slice()).collect();
    let id = anchor_lang::prelude::Pubkey::new_from_array(program_id.bytes);
    match anchor_lang::prelude::Pubkey::create_program_address(&slices, &id) {
        Ok(key) => Some(Pubkey { bytes: key.to_bytes() }),
        Err(_) => None,
    }
}

/// Calls `anchor_lang::prelude::Pubkey::try_find_program_address`.
///
/// Claimed: the outcome depends on the seeds and the program id alone, and
/// where there is one, `Pubkey::create_program_address` derives the same
/// address from the seeds followed by the bump.
#[verifier::external_body]
fn try_find_program_address(seeds: &Vec<Vec<u8>>, program_id: &Pubkey) -> (r: Option<(Pubkey, u8)>)
    ensures
        found_bytes(r) == found_program_address(seeds.deep_view(), program_id@),
        r matches Some((key, bump)) ==> program_address(
            seeds.deep_view().push(seq![bump]),
            program_id@,
        ) == Some(key@),
{
    let slices: Vec<&[u8]> = seeds.iter().map(|seed| seed.as_slice()).collect();
    let id = anchor_lang::prelude::Pubkey::new_from_array(program_id.bytes);
    match anchor_lang::prelude::Pubkey::try_find_program_address(&slices, &id) {
        Some((key, bump)) => Some((Pubkey { bytes: key.to_bytes() }, bump)),
        None => None,
    }
}

/// Calls `anchor_spl::associated_token::get_associated_token_address`.
///
/// Claimed: the result is the address that `Pubkey::try_find_program_address`
/// finds for the wallet, the token program and the mint under the associated
/// token program. The call panics where there is none.
#[verifier::external_body]
fn get_associated_token_address(wallet: &Pubkey, mint: &Pubkey) -> (r: Pubkey)
    requires
        associated_token_address(wallet@, mint@) is Some,
    ensures
        associated_token_address(wallet@, mint@) == Some(r@),
{
    let wallet_key = anchor_lang::prelude::Pubkey::new_from_array(wallet.bytes);
    let mint_key = anchor_lang::prelude::Pubkey::new_from_array(mint.bytes);
    let key = anchor_spl::associated_token::get_associated_token_address(&wallet_key, &mint_key);
    Pubkey { bytes: key.to_bytes() }
}

/// This program: `HvmBzCdbAgUN1j1WTxBJrdYXTPhrgrnaHY7ZfB17hpVN`.
pub open spec fn program_id_bytes() -> Seq<u8> {
    seq![
        251, 128, 189, 36, 96, 26, 182, 251, 71, 190, 137, 205, 25, 82, 219, 3,
        107, 14, 27, 164, 119, 207, 48, 27, 87, 228, 2, 4, 174, 165, 170, 41,
    ]
}

/// The token program: `TokenkegQfeZyiNwAJbNbGKPFXCWuBvf9Ss623VQ5DA`.
pub open spec fn token_program_id_bytes() -> Seq<u8> {
    seq![
        6, 221, 246, 225, 215, 101, 161, 147, 217, 203, 225, 70, 206, 235, 121, 172,
        28, 180, 133, 237, 95, 91, 55, 145, 58, 140, 245, 133, 126, 255, 0, 169,
    ]
}

/// The associated token program: `ATokenGPvbdGVxr1b2hvZbsiqW5xWH25efTNsLJA8knL`.
pub open spec fn associated_token_program_id_bytes() -> Seq<u8> {
    seq![
        140, 151, 37, 143, 78, 36, 137, 241, 187, 61, 16, 41, 20, 142, 13, 131,
        11, 90, 19, 153, 218, 255, 16, 132, 4, 142, 123, 216, 219, 233, 248, 89,
    ]
}

/// The address of this program.
pub fn id() -> (r: Pubkey)
    ensures
        r@ == program_id_bytes(),
{
    let r = Pubkey {
        bytes: [
            251, 128, 189, 36, 96, 26, 182, 251, 71, 190, 137, 205, 25, 82, 219, 3,
            107, 14, 27, 164, 119, 207, 48, 27, 87, 228, 2, 4, 174, 165, 170, 41,
        ],
    };
    assert(r@ =~= program_id_bytes());
    r
}

fn token_program_id() -> (r: Pubkey)
    ensures
        r@ == token_program_id_bytes(),
{
    let r = Pubkey {
        bytes: [
            6, 221, 246, 225, 215, 101, 161, 147, 217, 203, 225, 70, 206, 235, 121, 172,
            28, 180, 133, 237, 95, 91, 55, 145, 58, 140, 245, 133, 126, 255, 0, 169,
        ],
    };
    assert(r@ =~= token_program_id_bytes());
    r
}

fn associated_token_program_id() -> (r: Pubkey)
    ensures
        r@ == associated_token_program_id_bytes(),
{
    let r = Pubkey {
        bytes: [
            140, 151, 37, 143, 78, 36, 137, 241, 187, 61, 16, 41, 20, 142, 13, 131,
            11, 90, 19, 153, 218, 255, 16, 132, 4, 142, 123, 216, 219, 233, 248, 89,
        ],
    };
    assert(r@ =~= associated_token_program_id_bytes());
    r
}

/// The seed of the config: the letters `config`.
pub open spec fn config_seeds() -> Seq<Seq<u8>> {
    seq![seq![99, 111, 110, 102, 105, 103]]
}

/// The seeds of a payment's escrow: the letters `escrow` and the payment id.
pub open spec fn escrow_seeds(payment_id: Seq<u8>) -> Seq<Seq<u8>> {
    seq![seq![101, 115, 99, 114, 111, 119], payment_id]
}

/// The address of the config with the given bump.
pub open spec fn config_address(bump: u8) -> Option<Seq<u8>> {
    program_address(config_seeds().push(seq![bump]), program_id_bytes())
}

/// The address of a payment's escrow with the given bump.
pub open spec fn escrow_address(payment_id: Seq<u8>, bump: u8) -> Option<Seq<u8>> {
    program_address(escrow_seeds(payment_id).push(seq![bump]), program_id_bytes())
}

/// The address and the bump at which the config is created.
pub open spec fn new_config_address() -> Option<(Seq<u8>, u8)> {
    found_program_address(config_seeds(), program_id_bytes())
}

/// The address and the bump at which a payment's escrow is created.
pub open spec fn new_escrow_address(payment_id: Seq<u8>) -> Option<(Seq<u8>, u8)> {
    found_program_address(escrow_seeds(payment_id), program_id_bytes())
}

/// The one token account that holds a wallet's tokens of a mint by default.
pub open spec fn associated_token_address(wallet: Seq<u8>, mint: Seq<u8>) -> Option<Seq<u8>> {
    match found_program_address(
        seq![wallet, token_program_id_bytes(), mint],
        associated_token_program_id_bytes(),
    ) {
        Some((key, bump)) => Some(key),
        None => None,
    }
}

/// The bytes of a payment id or a key as a seed.
fn seed(bytes: &[u8; 32]) -> (r: Vec<u8>)
    ensures
        r@ == bytes@,
{
    slice_to_vec(bytes.as_slice())
}

fn new_config_seeds() -> (r: Vec<Vec<u8>>)
    ensures
        r.deep_view() == config_seeds(),
{
    let r: Vec<Vec<u8>> = vec![vec![99, 111, 110, 102, 105, 103]];
    assert(r@[0].deep_view() =~= config_seeds()[0]);
    assert(r.deep_view() =~= config_seeds());
    r
}

fn new_escrow_seeds(payment_id: &[u8; 32]) -> (r: Vec<Vec<u8>>)
    ensures
        r.deep_view() == escrow_seeds(payment_id@),
{
    let r: Vec<Vec<u8>> = vec![vec![101, 115, 99, 114, 111, 119], seed(payment_id)];
    assert(r@[0].deep_view() =~= escrow_seeds(payment_id@)[0]);
    assert(r@[1].deep_view() =~= payment_id@);
    assert(r.deep_view() =~= escrow_seeds(payment_id@));
    r
}

fn with_bump(seeds: Vec<Vec<u8>>, bump: u8) -> (r: Vec<Vec<u8>>)
    ensures
        r.deep_view() == seeds.deep_view().push(seq![bump]),
{
    let mut r = seeds;
    let last: Vec<u8> = vec![bump];
    assert(last.deep_view() =~= seq![bump]);
    r.push(last);
    assert(r.deep_view() =~= seeds.deep_view().push(seq![bump]));
    r
}

/// The seeds with which the program signs for a payment's escrow.
pub fn escrow_signer_seeds(payment_id: &[u8; 32], bump: u8) -> (r: Vec<Vec<u8>>)
    ensures
        r.deep_view() == escrow_seeds(payment_id@).push(seq![bump]),
{
    with_bump(new_escrow_seeds(payment_id), bump)
}

/// The seeds with which the program signs for the config.
pub fn config_signer_seeds(bump: u8) -> (r: Vec<Vec<u8>>)
    ensures
        r.deep_view() == config_seeds().push(seq![bump]),
{
    with_bump(new_config_seeds(), bump)
}

/// The address of the config with the given bump.
pub fn derive_config_address(bump: u8) -> (r: Option<Pubkey>)
    ensures
        key_bytes(r) == config_address(bump),
{
    create_program_address(&config_signer_seeds(bump), &id())
}

/// The address of a payment's escrow with the given bump.
pub fn derive_escrow_address(payment_id: &[u8; 32], bump: u8) -> (r: Option<Pubkey>)
    ensures
        key_bytes(r) == escrow_address(payment_id@, bump),
{
    create_program_address(&escrow_signer_seeds(payment_id, bump), &id())
}

/// The address and the bump at which the config is created.
pub fn find_config_address() -> (r: Option<(Pubkey, u8)>)
    ensures
        found_bytes(r) == new_config_address(),
        r matches Some((key, bump)) ==> config_address(bump) == Some(key@),
{
    try_find_program_address(&new_config_seeds(), &id())
}

/// The address and the bump at which a payment's escrow is created.
pub fn find_escrow_address(payment_id: &[u8; 32]) -> (r: Option<(Pubkey, u8)>)
    ensures
        found_bytes(r) == new_escrow_address(payment_id@),
        r matches Some((key, bump)) ==> escrow_address(payment_id@, bump) == Some(key@),
{
    try_find_program_address(&new_escrow_seeds(payment_id), &id())
}

/// The associated token account of `wallet` for `mint`.
///
/// The derivation is tried first, because the call that names the account
/// panics where there is none.
pub fn derive_associated_token_address(wallet: &Pubkey, mint: &Pubkey) -> (r: Option<Pubkey>)
    ensures
        key_bytes(r) == associated_token_address(wallet@, mint@),
{
    let seeds: Vec<Vec<u8>> = vec![
        seed(&wallet.bytes),
        seed(&token_program_id().bytes),
        seed(&mint.bytes),
    ];
    assert(seeds@[0].deep_view() =~= wallet@);
    assert(seeds@[1].deep_view() =~= token_program_id_bytes());
    assert(seeds@[2].deep_view() =~= mint@);
    assert(seeds.deep_view() =~= seq![wallet@, token_program_id_bytes(), mint@]);
    match try_find_program_address(&seeds, &associated_token_program_id()) {
        Some(_) => Some(get_associated_token_address(wallet, mint)),
        None => None,
    }
}

/// An address as bytes is all of its bytes, in order, and a missing address has
/// none.
pub proof fn law_bytes_are_those_of_the_key(key: Pubkey, bump: u8)
    ensures
        key@.len() == 32,
        forall|i: int| 0 <= i < 32 ==> key@[i] == #[trigger] key.bytes[i],
        key_bytes(Some(key)) == Some(key@),
        key_bytes(None) is None,
        found_bytes(Some((key, bump))) == Some((key@, bump)),
        found_bytes(None) is None,
{
}

/// The seed of the config is the word `config`.
pub proof fn law_config_seed_is_the_word()
    ensures
        config_seeds().len() == 1,
        config_seeds()[0].len() == "config"@.len(),
        forall|i: int| 0 <= i < "config"@.len() ==> config_seeds()[0][i] as char == "config"@[i],
{
    reveal_strlit("config");
}

/// The seeds of an escrow are the word `escrow` and the whole payment id.
pub proof fn law_escrow_seeds_are_the_word_and_the_payment(payment_id: Seq<u8>)
    ensures
        escrow_seeds(payment_id).len() == 2,
        escrow_seeds(payment_id)[0].len() == "escrow"@.len(),
        forall|i: int|
            0 <= i < "escrow"@.len() ==> escrow_seeds(payment_id)[0][i] as char == "escrow"@[i],
        escrow_seeds(payment_id)[1] == payment_id,
{
    reveal_strlit("escrow");
}

/// The escrow's seeds determine the payment, and never are those of the config:
/// payments that share an address share their id.
pub proof fn law_escrow_seeds_determine_the_payment(a: Seq<u8>, b: Seq<u8>)
    ensures
        escrow_seeds(a) == escrow_seeds(b) ==> a == b,
        escrow_seeds(a) != config_seeds(),
{
    if escrow_seeds(a) == escrow_seeds(b) {
        assert(escrow_seeds(a)[1] == a);
        assert(escrow_seeds(b)[1] == b);
    }
    assert(escrow_seeds(a).len() == 2);
    assert(config_seeds().len() == 1);
}

/// The config is created where this program finds an address for the word
/// `config`, and recognised by the program address of that word and its bump.
pub proof fn law_where_the_config_is(bump: u8)
    ensures
        new_config_address() == found_program_address(
            seq![seq![99u8, 111, 110, 102, 105, 103]],
            program_id_bytes(),
        ),
        config_address(bump) == program_address(
            seq![seq![99u8, 111, 110, 102, 105, 103], seq![bump]],
            program_id_bytes(),
        ),
{
    assert(config_seeds().push(seq![bump]) =~= seq![
        seq![99u8, 111, 110, 102, 105, 103],
        seq![bump],
    ]);
}

/// The escrow of a payment is created where this program finds an address for
/// the word `escrow` and the whole payment id, and recognised by the program
/// address of these and its bump.
pub proof fn law_where_an_escrow_is(payment_id: Seq<u8>, bump: u8)
    ensures
        new_escrow_address(payment_id) == found_program_address(
            seq![seq![101u8, 115, 99, 114, 111, 119], payment_id],
            program_id_bytes(),
        ),
        escrow_address(payment_id, bump) == program_address(
            seq![seq![101u8, 115, 99, 114, 111, 119], payment_id, seq![bump]],
            program_id_bytes(),
        ),
{
    assert(escrow_seeds(payment_id).push(seq![bump]) =~= seq![
        seq![101u8, 115, 99, 114, 111, 119],
        payment_id,
        seq![bump],
    ]);
}

/// The associated token account of a wallet for a mint is where the associated
/// token program finds an address for the whole wallet, the token program and
/// the whole mint, in this order.
pub proof fn law_where_an_associated_token_account_is(wallet: Seq<u8>, mint: Seq<u8>)
    ensures
        associated_token_address(wallet, mint) == match found_program_address(
            seq![wallet, token_program_id_bytes(), mint],
            associated_token_program_id_bytes(),
        ) {
            Some(found) => Some(found.0),
            None => None,
        },
{
}

/// Program ids are addresses, and the three programs are different ones.
pub proof fn law_programs_are_different()
    ensures
        program_id_bytes().len() == 32,
        token_program_id_bytes().len() == 32,
        associated_token_program_id_bytes().len() == 32,
        program_id_bytes() != token_program_id_bytes(),
        program_id_bytes() != associated_token_program_id_bytes(),
        token_program_id_bytes() != associated_token_program_id_bytes(),
{
    assert(program_id_bytes()[0] == 251);
    assert(token_program_id_bytes()[0] == 6);
    assert(associated_token_program_id_bytes()[0] == 140);
}

} // verus!
