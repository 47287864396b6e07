use pumpdotfun_sdk::constants::{
    ASSOCIATED_TOKEN_PROGRAM, EVENT_AUTHORITY, MPL_TOKEN_METADATA, RENT_SYSVAR, SYSTEM_PROGRAM,
    TOKEN_PROGRAM,
};
use pumpdotfun_sdk::instruction::AccountMeta;
use pumpdotfun_sdk::instructions::create::{
    create_ix, try_create_ix, CreateAccounts, CreateArgs, CREATE_DISCRIMINATOR,
};
use pumpdotfun_sdk::pda::{
    get_associated_bonding_curve, get_bonding_curve_pda, get_global_pda, get_metadata_pda,
};
use pumpdotfun_sdk::pubkey::Pubkey;
use pumpdotfun_sdk::PUMP_DOT_FUN_PROGRAM_ID;

fn unique() -> Pubkey {
    Pubkey::new_from_array(solana_sdk::pubkey::Pubkey::new_unique().to_bytes())
}

fn sample_args(creator: Pubkey) -> CreateArgs {
    CreateArgs {
        name: "Test Token".to_string(),
        symbol: "TEST".to_string(),
        uri: "http://test.uri".to_string(),
        creator,
    }
}

#[test]
fn test_create_ix() {
    // Mock data for CreateAccounts
    let accounts = CreateAccounts { mint: unique(), user: unique() };

    // Mock data for CreateArgs
    let args = CreateArgs {
        name: "Test Token".to_string(),
        symbol: "TEST".to_string(),
        uri: "http://test.uri".to_string(),
        creator: unique(),
    };

    let program_id = unique(); // Dummy program ID for testing

    let instruction = create_ix(&program_id, accounts, args);

    // Assertions
    assert_eq!(instruction.program_id, program_id);
}

#[test]
fn create_names_thirteen_accounts_in_order() {
    let mint = unique();
    let user = unique();
    let instruction = create_ix(
        &Pubkey::new_from_array(PUMP_DOT_FUN_PROGRAM_ID),
        CreateAccounts { mint, user },
        sample_args(user),
    );
    let expected = vec![
        AccountMeta { pubkey: mint, is_signer: true, is_writable: true },
        AccountMeta { pubkey: get_bonding_curve_pda(&mint), is_signer: false, is_writable: true },
        AccountMeta {
            pubkey: get_associated_bonding_curve(&mint),
            is_signer: false,
            is_writable: true,
        },
        AccountMeta { pubkey: get_global_pda(), is_signer: false, is_writable: false },
        AccountMeta {
            pubkey: Pubkey::new_from_array(MPL_TOKEN_METADATA),
            is_signer: false,
            is_writable: false,
        },
        AccountMeta { pubkey: get_metadata_pda(&mint), is_signer: false, is_writable: true },
        AccountMeta { pubkey: user, is_signer: true, is_writable: true },
        AccountMeta {
            pubkey: Pubkey::new_from_array(SYSTEM_PROGRAM),
            is_signer: false,
            is_writable: false,
        },
        AccountMeta {
            pubkey: Pubkey::new_from_array(TOKEN_PROGRAM),
            is_signer: false,
            is_writable: false,
        },
        AccountMeta {
            pubkey: Pubkey::new_from_array(ASSOCIATED_TOKEN_PROGRAM),
            is_signer: false,
            is_writable: false,
        },
        AccountMeta {
            pubkey: Pubkey::new_from_array(RENT_SYSVAR),
            is_signer: false,
            is_writable: false,
        },
        AccountMeta {
            pubkey: Pubkey::new_from_array(EVENT_AUTHORITY),
            is_signer: false,
            is_writable: false,
        },
        AccountMeta {
            pubkey: Pubkey::new_from_array(PUMP_DOT_FUN_PROGRAM_ID),
            is_signer: false,
            is_writable: false,
        },
    ];
    assert_eq!(instruction.accounts.len(), 13);
    assert_eq!(instruction.accounts, expected);
}

#[test]
fn create_opcode_bytes() {
    assert_eq!(CREATE_DISCRIMINATOR, [24, 30, 200, 40, 5, 28, 7, 119]);
    let user = unique();
    let instruction =
        create_ix(&unique(), CreateAccounts { mint: unique(), user }, sample_args(user));
    assert!(instruction.data.starts_with(&[24, 30, 200, 40, 5, 28, 7, 119]));
}

#[test]
fn create_payload_is_the_marker_and_the_encoded_metadata() {
    let creator = Pubkey::new_from_array([9; 32]);
    let instruction = create_ix(
        &unique(),
        CreateAccounts { mint: unique(), user: unique() },
        sample_args(creator),
    );
    let mut expected = vec![24, 30, 200, 40, 5, 28, 7, 119];
    expected.extend_from_slice(&[10, 0, 0, 0]);
    expected.extend_from_slice(b"Test Token");
    expected.extend_from_slice(&[4, 0, 0, 0]);
    expected.extend_from_slice(b"TEST");
    expected.extend_from_slice(&[15, 0, 0, 0]);
    expected.extend_from_slice(b"http://test.uri");
    expected.extend_from_slice(&[9; 32]);
    assert_eq!(instruction.data, expected);

    let encoded = borsh::to_vec(&(
        "Test Token".to_string(),
        "TEST".to_string(),
        "http://test.uri".to_string(),
        [9u8; 32],
    ))
    .unwrap();
    assert_eq!(&instruction.data[8..], &encoded[..]);
}

#[test]
fn create_encodes_long_and_non_ascii_strings() {
    let name = "é".repeat(200);
    let args = CreateArgs {
        name: name.clone(),
        symbol: String::new(),
        uri: "ü€𝄞".to_string(),
        creator: Pubkey::new_from_array([0; 32]),
    };
    let instruction = create_ix(&unique(), CreateAccounts { mint: unique(), user: unique() }, args);
    let encoded =
        borsh::to_vec(&(name, String::new(), "ü€𝄞".to_string(), [0u8; 32])).unwrap();
    assert_eq!(&instruction.data[8..], &encoded[..]);
    assert_eq!(&instruction.data[8..12], &[144, 1, 0, 0]);
}

#[test]
fn try_create_builds_the_same_instruction() {
    let accounts = CreateAccounts { mint: unique(), user: unique() };
    let args = sample_args(unique());
    let program_id = unique();
    let direct = create_ix(&program_id, accounts, args.clone());
    assert_eq!(try_create_ix(&program_id, accounts, args), Some(direct));
}
