use std::str::FromStr;

use anchor_lang::solana_program::pubkey::Pubkey;
use cnft_vault::address::Address;
use cnft_vault::pda::{
    find_associated_token_account, find_central_authority, find_master_edition_account,
    find_metadata_account, signer_seeds,
};
use cnft_vault::programs::{
    associated_token_program, bubblegum_program, compression_program, noop_program, program,
    rent_sysvar, system_program, token_metadata_program, token_program, MplBubblegum,
    MplTokenMetadata, Noop, SplAccountCompression,
};

fn key(a: &Address) -> Pubkey {
    Pubkey::new_from_array(a.to_bytes())
}

#[test]
fn program_id_matches_declared_id() {
    let id = Pubkey::from_str("HcmjtyqZgSeNFdKvHCBCDNEJHSwrf9KveBrbXQKXPxqN").unwrap();
    assert_eq!(key(&program()), id);
}

#[test]
fn bubblegum_id_matches_outside_crate() {
    assert_eq!(key(&MplBubblegum::id()), mpl_bubblegum::ID);
    assert_eq!(key(&bubblegum_program()), mpl_bubblegum::ID);
}

#[test]
fn token_metadata_id_matches_outside_crate() {
    assert_eq!(key(&MplTokenMetadata::id()), mpl_token_metadata::ID);
    assert_eq!(key(&token_metadata_program()), anchor_spl::metadata::ID);
}

#[test]
fn noop_id_matches_outside_crate() {
    let id = Pubkey::from_str("noopb9bkMVfRPU8AsbpTUg8AQkHtKwMYZiFUjNRtMmV").unwrap();
    assert_eq!(key(&Noop::id()), id);
    assert_eq!(key(&noop_program()), mpl_bubblegum::programs::SPL_NOOP_ID);
}

#[test]
fn compression_id_matches_outside_crate() {
    let id = Pubkey::from_str("cmtDvXumGCrqC1Age74AVPhSRVXJMd8PJS91L8KbNCK").unwrap();
    assert_eq!(key(&SplAccountCompression::id()), id);
    assert_eq!(key(&compression_program()), mpl_bubblegum::programs::SPL_ACCOUNT_COMPRESSION_ID);
}

#[test]
fn token_program_ids_match_outside_crates() {
    assert_eq!(key(&token_program()), anchor_spl::token::ID);
    assert_eq!(key(&associated_token_program()), anchor_spl::associated_token::ID);
    assert_eq!(key(&system_program()), anchor_lang::system_program::ID);
    assert_eq!(key(&rent_sysvar()), anchor_lang::solana_program::sysvar::rent::ID);
}

#[test]
fn central_authority_is_the_derived_address() {
    let id = key(&program());
    let (expected, bump) = Pubkey::find_program_address(&[b"central_authority"], &id);
    let (found, found_bump) = find_central_authority(&program()).unwrap();
    assert_eq!(key(&found), expected);
    assert_eq!(found_bump, bump);
    assert_ne!(found, program());
}

#[test]
fn metadata_accounts_match_metadata_program() {
    let mint = Address::new([7u8; 32]);
    let (metadata, _) = find_metadata_account(&mint).unwrap();
    let (edition, _) = find_master_edition_account(&mint).unwrap();
    let m = key(&mint);
    assert_eq!(key(&metadata), mpl_token_metadata::accounts::Metadata::find_pda(&m).0);
    assert_eq!(key(&edition), mpl_token_metadata::accounts::MasterEdition::find_pda(&m).0);
    assert_ne!(metadata, edition);
}

#[test]
fn associated_token_account_matches_token_program() {
    let owner = Address::new([3u8; 32]);
    let mint = Address::new([9u8; 32]);
    let (holding, _) = find_associated_token_account(&owner, &mint).unwrap();
    let expected =
        anchor_spl::associated_token::get_associated_token_address(&key(&owner), &key(&mint));
    assert_eq!(key(&holding), expected);
}

#[test]
fn signer_seeds_are_label_then_bump() {
    let seeds = signer_seeds(254);
    assert_eq!(seeds, vec![b"central_authority".to_vec(), vec![254u8]]);
}

#[test]
fn addresses_compare_by_bytes() {
    let a = Address::new([1u8; 32]);
    let mut bytes = [1u8; 32];
    assert!(a.same_as(&Address::new(bytes)));
    bytes[31] = 2;
    assert!(!a.same_as(&Address::new(bytes)));
    assert!(a != Address::new(bytes));
}
