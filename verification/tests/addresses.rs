use std::str::FromStr;

use anchor_lang::prelude::Pubkey as ChainKey;
use anchor_spl::associated_token::get_associated_token_address;

use fluxpay_escrow::accounts::{derive_addresses, is_occupied, EscrowAccount};
use fluxpay_escrow::address::{
    derive_associated_token_address, derive_config_address, derive_escrow_address,
    escrow_signer_seeds, find_config_address, find_escrow_address, id,
};
use fluxpay_escrow::effects::{EscrowSigner, RecordSigner};
use fluxpay_escrow::pubkey::Pubkey;
use fluxpay_escrow::state::{Config, Escrow, EscrowStatus};

fn key(byte: u8) -> Pubkey {
    Pubkey { bytes: [byte; 32] }
}

fn chain(key: &Pubkey) -> ChainKey {
    ChainKey::new_from_array(key.bytes)
}

fn program() -> ChainKey {
    ChainKey::from_str("HvmBzCdbAgUN1j1WTxBJrdYXTPhrgrnaHY7ZfB17hpVN").unwrap()
}

#[test]
fn id_is_the_declared_program() {
    assert_eq!(chain(&id()), program());
}

#[test]
fn keys_are_equal_when_all_bytes_are() {
    let a = key(7);
    let mut b = a;
    assert!(a == b);
    b.bytes[31] = 8;
    assert!(a != b);
    b = a;
    b.bytes[0] = 8;
    assert!(a != b);
}

#[test]
fn default_key_is_all_zeroes() {
    assert_eq!(Pubkey::default().bytes, [0u8; 32]);
    assert_eq!(chain(&Pubkey::default()), ChainKey::default());
}

#[test]
fn config_is_found_where_the_chain_finds_it() {
    let (expected, expected_bump) = ChainKey::find_program_address(&[b"config"], &program());
    let (found, bump) = find_config_address().unwrap();
    assert_eq!(chain(&found), expected);
    assert_eq!(bump, expected_bump);
    assert_eq!(derive_config_address(bump), Some(found));
}

#[test]
fn escrow_is_found_where_the_chain_finds_it() {
    for byte in [0u8, 1, 42, 255] {
        let payment_id = [byte; 32];
        let (expected, expected_bump) =
            ChainKey::find_program_address(&[b"escrow", payment_id.as_ref()], &program());
        let (found, bump) = find_escrow_address(&payment_id).unwrap();
        assert_eq!(chain(&found), expected);
        assert_eq!(bump, expected_bump);
        assert_eq!(derive_escrow_address(&payment_id, bump), Some(found));
    }
}

#[test]
fn payments_have_escrows_of_their_own() {
    let (a, _) = find_escrow_address(&[1u8; 32]).unwrap();
    let (b, _) = find_escrow_address(&[2u8; 32]).unwrap();
    assert!(a != b);
    assert_eq!(find_escrow_address(&[1u8; 32]).unwrap().0, a);
}

#[test]
fn bumps_that_the_chain_refuses_have_no_address() {
    let mut refused = 0;
    for bump in 0..=255u8 {
        let payment_id = [3u8; 32];
        let expected =
            ChainKey::create_program_address(&[b"escrow", payment_id.as_ref(), &[bump]], &program());
        let derived = derive_escrow_address(&payment_id, bump);
        match expected {
            Ok(address) => assert_eq!(chain(&derived.unwrap()), address),
            Err(_) => {
                assert_eq!(derived, None);
                refused += 1;
            }
        }
    }
    assert!(refused > 0);
}

#[test]
fn vault_is_the_associated_token_account() {
    let wallet = key(11);
    let mint = key(12);
    let expected = get_associated_token_address(&chain(&wallet), &chain(&mint));
    let derived = derive_associated_token_address(&wallet, &mint).unwrap();
    assert_eq!(chain(&derived), expected);
    assert!(derived != wallet);
    assert!(derived != derive_associated_token_address(&mint, &wallet).unwrap());
}

#[test]
fn signer_seeds_derive_the_escrow() {
    let payment_id = [5u8; 32];
    let (escrow, bump) = find_escrow_address(&payment_id).unwrap();
    let seeds = EscrowSigner { payment_id, bump }.seeds();
    assert_eq!(seeds, vec![b"escrow".to_vec(), payment_id.to_vec(), vec![bump]]);
    assert_eq!(seeds, escrow_signer_seeds(&payment_id, bump));
    let slices: Vec<&[u8]> = seeds.iter().map(|seed| seed.as_slice()).collect();
    assert_eq!(ChainKey::create_program_address(&slices, &program()).unwrap(), chain(&escrow));
}

#[test]
fn record_seeds_derive_the_records() {
    let (config, bump) = find_config_address().unwrap();
    let seeds = RecordSigner::Config(bump).seeds();
    assert_eq!(seeds, vec![b"config".to_vec(), vec![bump]]);
    let slices: Vec<&[u8]> = seeds.iter().map(|seed| seed.as_slice()).collect();
    assert_eq!(ChainKey::create_program_address(&slices, &program()).unwrap(), chain(&config));

    let signer = EscrowSigner { payment_id: [5u8; 32], bump: 9 };
    assert_eq!(RecordSigner::Escrow(signer).seeds(), signer.seeds());
}

#[test]
fn derived_addresses_are_those_of_escrow_and_vault() {
    let payment_id = [6u8; 32];
    let mint = key(13);
    let (address, bump) = find_escrow_address(&payment_id).unwrap();
    let escrow = EscrowAccount {
        key: address,
        is_writable: true,
        in_use: true,
        data: Escrow {
            payment_id,
            depositor: Pubkey::default(),
            merchant: key(14),
            amount: 1,
            payment_window: 1,
            grace_period: 1,
            expiry: 0,
            status: EscrowStatus::Pending,
            bump,
        },
    };
    let addresses = derive_addresses(&payment_id, &escrow, &mint);
    assert_eq!(addresses.escrow, Some(address));
    assert_eq!(addresses.vault, derive_associated_token_address(&address, &mint));
}

#[test]
fn records_have_their_stored_sizes() {
    assert_eq!(Config::LEN, 105);
    assert_eq!(Escrow::LEN, 138);
}

#[test]
fn address_with_lamports_only_is_free() {
    let system_program = Pubkey { bytes: anchor_lang::system_program::ID.to_bytes() };
    assert!(!is_occupied(&system_program, 0));
    assert!(is_occupied(&system_program, 1));
    assert!(is_occupied(&id(), 0));
    assert!(is_occupied(&id(), Escrow::LEN));
}
