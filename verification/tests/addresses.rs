use std::str::FromStr;

use pumpdotfun_sdk::constants::{
    ASSOCIATED_TOKEN_PROGRAM, EVENT_AUTHORITY, MPL_TOKEN_METADATA, RENT_SYSVAR, SYSTEM_PROGRAM,
    TOKEN_PROGRAM,
};
use pumpdotfun_sdk::pda::{
    get_associated_bonding_curve, get_bonding_curve_pda, get_creator_vault_pda, get_global_pda,
    get_metadata_pda, get_mint_authority_pda, try_get_associated_bonding_curve,
    try_get_bonding_curve_pda, try_get_creator_vault_pda, try_get_global_pda,
    try_get_metadata_pda, try_get_mint_authority_pda, BONDING_CURVE_SEED, CREATOR_VAULT_SEED,
    GLOBAL_SEED, METADATA_SEED, MINT_AUTHORITY_SEED,
};
use pumpdotfun_sdk::pubkey::Pubkey;
use pumpdotfun_sdk::PUMP_DOT_FUN_PROGRAM_ID;
use solana_sdk::pubkey::Pubkey as SdkPubkey;

fn parse(text: &str) -> [u8; 32] {
    SdkPubkey::from_str(text).unwrap().to_bytes()
}

fn key(fill: u8) -> Pubkey {
    Pubkey::new_from_array([fill; 32])
}

fn derive(seeds: &[&[u8]], program: [u8; 32]) -> [u8; 32] {
    SdkPubkey::find_program_address(seeds, &SdkPubkey::new_from_array(program)).0.to_bytes()
}

#[test]
fn well_known_addresses_decode_from_their_text() {
    assert_eq!(PUMP_DOT_FUN_PROGRAM_ID, parse("6EF8rrecthR5Dkzon8Nwu78hRvfCKubJ14M5uBEwF6P"));
    assert_eq!(EVENT_AUTHORITY, parse("Ce6TQqeHC9p8KetsN6JsjHK7UTZk7nasjjnr7XxXp9F1"));
    assert_eq!(SYSTEM_PROGRAM, parse("11111111111111111111111111111111"));
    assert_eq!(MPL_TOKEN_METADATA, parse("metaqbxxUerdq28cj1RbAWkYQm3ybzjb6a8bt518x1s"));
    assert_eq!(TOKEN_PROGRAM, parse("TokenkegQfeZyiNwAJbNbGKPFXCWuBvf9Ss623VQ5DA"));
    assert_eq!(ASSOCIATED_TOKEN_PROGRAM, parse("ATokenGPvbdGVxr1b2hvZbsiqW5xWH25efTNsLJA8knL"));
    assert_eq!(RENT_SYSVAR, parse("SysvarRent111111111111111111111111111111111"));
}

#[test]
fn well_known_addresses_match_the_token_crates() {
    assert_eq!(ASSOCIATED_TOKEN_PROGRAM, spl_associated_token_account::id().to_bytes());
    assert_eq!(SYSTEM_PROGRAM, solana_sdk::system_program::id().to_bytes());
}

#[test]
fn seeds_are_the_ascii_prefixes() {
    assert_eq!(&BONDING_CURVE_SEED[..], &b"bonding-curve"[..]);
    assert_eq!(&METADATA_SEED[..], &b"metadata"[..]);
    assert_eq!(&GLOBAL_SEED[..], &b"global"[..]);
    assert_eq!(&MINT_AUTHORITY_SEED[..], &b"mint-authority"[..]);
    assert_eq!(&CREATOR_VAULT_SEED[..], &b"creator-vault"[..]);
}

#[test]
fn pubkey_keeps_its_bytes() {
    let mut bytes = [0u8; 32];
    for (i, b) in bytes.iter_mut().enumerate() {
        *b = i as u8;
    }
    let address = Pubkey::new_from_array(bytes);
    assert_eq!(address.to_bytes(), bytes);
    assert_eq!(address.bytes, bytes);
}

#[test]
fn bonding_curve_is_derived_from_prefix_and_mint() {
    let mint = key(7);
    let expected = derive(&[b"bonding-curve", &[7u8; 32]], PUMP_DOT_FUN_PROGRAM_ID);
    assert_eq!(get_bonding_curve_pda(&mint).to_bytes(), expected);
    assert_eq!(try_get_bonding_curve_pda(&mint), Some(Pubkey::new_from_array(expected)));
    assert_ne!(expected, [7u8; 32]);
}

#[test]
fn mint_authority_is_derived_from_its_prefix() {
    let expected = derive(&[b"mint-authority"], PUMP_DOT_FUN_PROGRAM_ID);
    assert_eq!(get_mint_authority_pda().to_bytes(), expected);
    assert_eq!(try_get_mint_authority_pda(), Some(Pubkey::new_from_array(expected)));
}

#[test]
fn global_is_derived_from_its_prefix() {
    let expected = derive(&[b"global"], PUMP_DOT_FUN_PROGRAM_ID);
    assert_eq!(get_global_pda().to_bytes(), expected);
    assert_eq!(try_get_global_pda(), Some(Pubkey::new_from_array(expected)));
    assert_eq!(
        SdkPubkey::new_from_array(expected).to_string(),
        "4wTV1YmiEkRvAtNtsSGPtUrqRYQMe5SKy2uB4Jjaxnjf"
    );
}

#[test]
fn metadata_is_derived_under_the_metadata_program() {
    let mint = key(9);
    let expected = derive(&[b"metadata", &MPL_TOKEN_METADATA, &[9u8; 32]], MPL_TOKEN_METADATA);
    assert_eq!(get_metadata_pda(&mint).to_bytes(), expected);
    assert_eq!(try_get_metadata_pda(&mint), Some(Pubkey::new_from_array(expected)));
}

#[test]
fn creator_vault_is_derived_from_prefix_and_creator() {
    let creator = key(3);
    let expected = derive(&[b"creator-vault", &[3u8; 32]], PUMP_DOT_FUN_PROGRAM_ID);
    assert_eq!(get_creator_vault_pda(&creator).to_bytes(), expected);
    assert_eq!(try_get_creator_vault_pda(&creator), Some(Pubkey::new_from_array(expected)));
}

#[test]
fn associated_bonding_curve_is_the_token_account_of_the_curve() {
    let mint = key(5);
    let curve = derive(&[b"bonding-curve", &[5u8; 32]], PUMP_DOT_FUN_PROGRAM_ID);
    let expected = derive(&[&curve, &TOKEN_PROGRAM, &[5u8; 32]], ASSOCIATED_TOKEN_PROGRAM);
    assert_eq!(get_associated_bonding_curve(&mint).to_bytes(), expected);
    assert_eq!(try_get_associated_bonding_curve(&mint), Some(Pubkey::new_from_array(expected)));
    assert_ne!(expected, curve);
}

#[test]
fn derivation_is_deterministic() {
    let mint = Pubkey::new_from_array(SdkPubkey::new_unique().to_bytes());
    assert_eq!(get_bonding_curve_pda(&mint), get_bonding_curve_pda(&mint));
    assert_eq!(get_associated_bonding_curve(&mint), get_associated_bonding_curve(&mint));
    assert_eq!(get_metadata_pda(&mint), get_metadata_pda(&mint));
    assert_eq!(get_creator_vault_pda(&mint), get_creator_vault_pda(&mint));
    assert_eq!(get_global_pda(), get_global_pda());
    assert_eq!(get_mint_authority_pda(), get_mint_authority_pda());
}

#[test]
fn address_classes_are_pairwise_distinct() {
    let mint = Pubkey::new_from_array(SdkPubkey::new_unique().to_bytes());
    let all = [
        get_bonding_curve_pda(&mint),
        get_associated_bonding_curve(&mint),
        get_metadata_pda(&mint),
        get_global_pda(),
        get_mint_authority_pda(),
        get_creator_vault_pda(&mint),
    ];
    for i in 0..all.len() {
        for j in 0..all.len() {
            if i != j {
                assert_ne!(all[i], all[j]);
            }
        }
    }
}

#[test]
fn different_mints_have_different_curves() {
    assert_ne!(get_bonding_curve_pda(&key(1)), get_bonding_curve_pda(&key(2)));
}
