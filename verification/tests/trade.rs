use pumpdotfun_sdk::constants::{
    ASSOCIATED_TOKEN_PROGRAM, EVENT_AUTHORITY, RENT_SYSVAR, SYSTEM_PROGRAM, TOKEN_PROGRAM,
};
use pumpdotfun_sdk::errors::ErrorCode;
use pumpdotfun_sdk::instruction::{AccountMeta, Instruction};
use pumpdotfun_sdk::instructions::buy::{buy_ix, try_buy_ix, Buy, BuyAccounts, BUY_DISCRIMINATOR};
use pumpdotfun_sdk::instructions::sell::{
    sell_ix, try_sell_ix, Sell, SellAccounts, SELL_DISCRIMINATOR,
};
use pumpdotfun_sdk::pda::{get_associated_bonding_curve, get_bonding_curve_pda, get_global_pda};
use pumpdotfun_sdk::pubkey::Pubkey;
use pumpdotfun_sdk::states::global::Global;
use pumpdotfun_sdk::PUMP_DOT_FUN_PROGRAM_ID;
use solana_sdk::pubkey::Pubkey as SdkPubkey;

fn unique() -> Pubkey {
    Pubkey::new_from_array(SdkPubkey::new_unique().to_bytes())
}

fn fee_recipient() -> Pubkey {
    Pubkey::new_from_array([42; 32])
}

fn global_data() -> Vec<u8> {
    Global {
        initialized: true,
        authority: Pubkey::new_from_array([1; 32]),
        fee_recipient: fee_recipient(),
        initial_virtual_token_reserves: 1,
        initial_virtual_sol_reserves: 2,
        initial_real_token_reserves: 3,
        token_total_supply: 4,
        fee_basis_points: 5,
        withdraw_authority: Pubkey::new_from_array([3; 32]),
        enable_migrate: true,
        pool_migration_fee: 6,
        creator_fee_basis_points: 7,
        fee_recipients: [Pubkey::new_from_array([8; 32]); 7],
        set_creator_authority: Pubkey::new_from_array([4; 32]),
    }
    .to_vec()
}

fn user_token_account(user: &Pubkey, mint: &Pubkey, token_program: [u8; 32]) -> Pubkey {
    let (address, _) = SdkPubkey::find_program_address(
        &[&user.bytes, &token_program, &mint.bytes],
        &SdkPubkey::new_from_array(ASSOCIATED_TOKEN_PROGRAM),
    );
    Pubkey::new_from_array(address.to_bytes())
}

fn meta(pubkey: Pubkey, is_signer: bool, is_writable: bool) -> AccountMeta {
    AccountMeta { pubkey, is_signer, is_writable }
}

fn fixed(bytes: [u8; 32]) -> Pubkey {
    Pubkey::new_from_array(bytes)
}

fn from_sdk(made: solana_sdk::instruction::Instruction) -> Instruction {
    Instruction {
        program_id: Pubkey::new_from_array(made.program_id.to_bytes()),
        accounts: made
            .accounts
            .iter()
            .map(|m| meta(Pubkey::new_from_array(m.pubkey.to_bytes()), m.is_signer, m.is_writable))
            .collect(),
        data: made.data,
    }
}

#[test]
fn buy_with_existing_token_account_is_one_instruction() {
    let accounts = BuyAccounts { mint: unique(), user: unique() };
    let args = Buy { amount: 1_000_000_000, max_sol_cost: 10_000_000, slippage: 500 };
    let program_id = unique();
    let built = buy_ix(&program_id, accounts, args, Some(global_data()), true).unwrap();
    assert_eq!(built.len(), 1);
    let purchase = &built[0];
    assert_eq!(purchase.program_id, program_id);
    let expected = vec![
        meta(get_global_pda(), false, false),
        meta(fee_recipient(), true, true),
        meta(accounts.mint, false, false),
        meta(get_bonding_curve_pda(&accounts.mint), true, true),
        meta(get_associated_bonding_curve(&accounts.mint), true, true),
        meta(user_token_account(&accounts.user, &accounts.mint, TOKEN_PROGRAM), true, true),
        meta(accounts.user, true, true),
        meta(fixed(SYSTEM_PROGRAM), false, false),
        meta(fixed(TOKEN_PROGRAM), false, false),
        meta(fixed(RENT_SYSVAR), false, false),
        meta(fixed(EVENT_AUTHORITY), false, false),
        meta(fixed(PUMP_DOT_FUN_PROGRAM_ID), false, false),
    ];
    assert_eq!(purchase.accounts.len(), 12);
    assert_eq!(purchase.accounts, expected);
    let mut data = vec![102, 6, 61, 18, 1, 218, 235, 234];
    data.extend_from_slice(&1_000_000_000u64.to_le_bytes());
    data.extend_from_slice(&60_000_000u64.to_le_bytes());
    assert_eq!(purchase.data, data);
    assert_eq!(&purchase.data[8..], &borsh::to_vec(&(1_000_000_000u64, 60_000_000u64)).unwrap()[..]);
}

#[test]
fn buy_without_token_account_opens_it_first() {
    let accounts = BuyAccounts { mint: unique(), user: unique() };
    let args = Buy { amount: 5, max_sol_cost: 1_000, slippage: 0 };
    let program_id = unique();
    let built = buy_ix(&program_id, accounts, args, Some(global_data()), false).unwrap();
    assert_eq!(built.len(), 2);
    let made = spl_associated_token_account::instruction::create_associated_token_account_idempotent(
        &SdkPubkey::new_from_array(accounts.user.bytes),
        &SdkPubkey::new_from_array(accounts.user.bytes),
        &SdkPubkey::new_from_array(accounts.mint.bytes),
        &SdkPubkey::new_from_array(TOKEN_PROGRAM),
    );
    assert_eq!(built[0], from_sdk(made));
    assert_eq!(built[0].program_id, fixed(ASSOCIATED_TOKEN_PROGRAM));
    assert_eq!(built[0].data, vec![1]);
    assert_eq!(
        built[0].accounts,
        vec![
            meta(accounts.user, true, true),
            meta(user_token_account(&accounts.user, &accounts.mint, TOKEN_PROGRAM), false, true),
            meta(accounts.user, false, false),
            meta(accounts.mint, false, false),
            meta(fixed(SYSTEM_PROGRAM), false, false),
            meta(fixed(TOKEN_PROGRAM), false, false),
        ]
    );
    assert_eq!(built[0].accounts[1].pubkey, built[1].accounts[5].pubkey);
    let direct = spl_associated_token_account::get_associated_token_address(
        &SdkPubkey::new_from_array(accounts.user.bytes),
        &SdkPubkey::new_from_array(accounts.mint.bytes),
    );
    assert_eq!(built[1].accounts[5].pubkey.bytes, direct.to_bytes());
    let with_account = buy_ix(&program_id, accounts, args, Some(global_data()), true).unwrap();
    assert_eq!(built[1], with_account[0]);
    assert_eq!(&built[1].data[16..], &1_000u64.to_le_bytes());
}

#[test]
fn buy_opcode_bytes() {
    assert_eq!(BUY_DISCRIMINATOR, [102, 6, 61, 18, 1, 218, 235, 234]);
    let accounts = BuyAccounts { mint: unique(), user: unique() };
    let args = Buy { amount: 1, max_sol_cost: 1, slippage: 1 };
    let built = buy_ix(&unique(), accounts, args, Some(global_data()), true).unwrap();
    assert!(built[0].data.starts_with(&[102, 6, 61, 18, 1, 218, 235, 234]));
    assert_eq!(built[0].data.len(), 24);
}

#[test]
fn buy_refuses_negative_slippage() {
    let accounts = BuyAccounts { mint: unique(), user: unique() };
    let args = Buy { amount: 1, max_sol_cost: 1, slippage: -1 };
    assert_eq!(
        buy_ix(&unique(), accounts, args, Some(global_data()), false),
        Err(ErrorCode::InvalidSlippage)
    );
    assert_eq!(buy_ix(&unique(), accounts, args, None, true), Err(ErrorCode::InvalidSlippage));
    assert_eq!(
        buy_ix(&unique(), accounts, args, Some(vec![1, 2, 3]), true),
        Err(ErrorCode::InvalidSlippage)
    );
}

#[test]
fn buy_reports_an_unreadable_configuration() {
    let accounts = BuyAccounts { mint: unique(), user: unique() };
    let args = Buy { amount: 1, max_sol_cost: u64::MAX, slippage: 5 };
    assert_eq!(buy_ix(&unique(), accounts, args, None, false), Err(ErrorCode::ConfigNotFound));
}

#[test]
fn buy_reports_configuration_bytes_that_do_not_parse() {
    let accounts = BuyAccounts { mint: unique(), user: unique() };
    let args = Buy { amount: 1, max_sol_cost: u64::MAX, slippage: 5 };
    let mut data = global_data();
    data.pop();
    assert_eq!(buy_ix(&unique(), accounts, args, Some(data), false), Err(ErrorCode::DecodeError));
    assert_eq!(
        buy_ix(&unique(), accounts, args, Some(Vec::new()), true),
        Err(ErrorCode::DecodeError)
    );
}

#[test]
fn buy_reports_overflow_near_the_maximum() {
    let accounts = BuyAccounts { mint: unique(), user: unique() };
    let args = Buy { amount: 1, max_sol_cost: u64::MAX, slippage: 1 };
    assert_eq!(
        buy_ix(&unique(), accounts, args, Some(global_data()), false),
        Err(ErrorCode::Overflow)
    );
    let args = Buy { amount: 1, max_sol_cost: u64::MAX, slippage: 0 };
    let built = buy_ix(&unique(), accounts, args, Some(global_data()), true).unwrap();
    assert_eq!(&built[0].data[16..], &u64::MAX.to_le_bytes());
}

#[test]
fn try_buy_agrees_with_buy() {
    let accounts = BuyAccounts { mint: unique(), user: unique() };
    let args = Buy { amount: 7, max_sol_cost: 1_000_000, slippage: 10 };
    let program_id = unique();
    for exists in [true, false] {
        assert_eq!(
            try_buy_ix(&program_id, accounts, args, Some(global_data()), exists),
            Some(buy_ix(&program_id, accounts, args, Some(global_data()), exists))
        );
    }
    assert_eq!(
        try_buy_ix(&program_id, accounts, args, None, false),
        Some(Err(ErrorCode::ConfigNotFound))
    );
    let negative = Buy { amount: 7, max_sol_cost: 1, slippage: -5 };
    assert_eq!(
        try_buy_ix(&program_id, accounts, negative, None, false),
        Some(Err(ErrorCode::InvalidSlippage))
    );
}

#[test]
fn sell_is_one_instruction_of_twelve_accounts() {
    let accounts = SellAccounts { mint: unique(), user: unique() };
    let args = Sell { amount: 500_000_000, min_sol_output: 1_000_000, slippage: 500 };
    let program_id = unique();
    let built = sell_ix(&program_id, accounts, args, Some(global_data())).unwrap();
    assert_eq!(built.len(), 1);
    assert_eq!(built[0].program_id, program_id);
    let expected = vec![
        meta(get_global_pda(), false, false),
        meta(fee_recipient(), true, true),
        meta(accounts.mint, false, false),
        meta(get_bonding_curve_pda(&accounts.mint), true, true),
        meta(get_associated_bonding_curve(&accounts.mint), true, true),
        meta(user_token_account(&accounts.user, &accounts.mint, TOKEN_PROGRAM), true, true),
        meta(accounts.user, true, true),
        meta(fixed(SYSTEM_PROGRAM), false, false),
        meta(fixed(ASSOCIATED_TOKEN_PROGRAM), false, false),
        meta(fixed(TOKEN_PROGRAM), false, false),
        meta(fixed(EVENT_AUTHORITY), false, false),
        meta(fixed(PUMP_DOT_FUN_PROGRAM_ID), false, false),
    ];
    assert_eq!(built[0].accounts, expected);
    let mut data = vec![51, 230, 133, 164, 1, 127, 131, 173];
    data.extend_from_slice(&500_000_000u64.to_le_bytes());
    data.extend_from_slice(&6_000_000u64.to_le_bytes());
    assert_eq!(built[0].data, data);
    assert_eq!(&built[0].data[8..], &borsh::to_vec(&(500_000_000u64, 6_000_000u64)).unwrap()[..]);
}

#[test]
fn sell_opcode_bytes() {
    assert_eq!(SELL_DISCRIMINATOR, [51, 230, 133, 164, 1, 127, 131, 173]);
    let accounts = SellAccounts { mint: unique(), user: unique() };
    let args = Sell { amount: 1, min_sol_output: 1, slippage: 0 };
    let built = sell_ix(&unique(), accounts, args, Some(global_data())).unwrap();
    assert!(built[0].data.starts_with(&[51, 230, 133, 164, 1, 127, 131, 173]));
    assert_eq!(&built[0].data[16..], &1u64.to_le_bytes());
}

#[test]
fn sell_fails_as_buy_does() {
    let accounts = SellAccounts { mint: unique(), user: unique() };
    let negative = Sell { amount: 1, min_sol_output: 1, slippage: -1 };
    assert_eq!(
        sell_ix(&unique(), accounts, negative, Some(global_data())),
        Err(ErrorCode::InvalidSlippage)
    );
    assert_eq!(sell_ix(&unique(), accounts, negative, None), Err(ErrorCode::InvalidSlippage));
    let args = Sell { amount: 1, min_sol_output: u64::MAX, slippage: 3 };
    assert_eq!(sell_ix(&unique(), accounts, args, None), Err(ErrorCode::ConfigNotFound));
    let mut data = global_data();
    data[0] = 7;
    assert_eq!(sell_ix(&unique(), accounts, args, Some(data)), Err(ErrorCode::DecodeError));
    assert_eq!(sell_ix(&unique(), accounts, args, Some(global_data())), Err(ErrorCode::Overflow));
}

#[test]
fn try_sell_agrees_with_sell() {
    let accounts = SellAccounts { mint: unique(), user: unique() };
    let args = Sell { amount: 7, min_sol_output: 1_000_000, slippage: 10 };
    let program_id = unique();
    assert_eq!(
        try_sell_ix(&program_id, accounts, args, Some(global_data())),
        Some(sell_ix(&program_id, accounts, args, Some(global_data())))
    );
    let negative = Sell { amount: 7, min_sol_output: 1, slippage: -5 };
    assert_eq!(
        try_sell_ix(&program_id, accounts, negative, None),
        Some(Err(ErrorCode::InvalidSlippage))
    );
}

#[test]
fn account_meta_constructors_set_the_flags() {
    let address = unique();
    assert_eq!(AccountMeta::new(address, true), meta(address, true, true));
    assert_eq!(AccountMeta::new(address, false), meta(address, false, true));
    assert_eq!(AccountMeta::new_readonly(address, true), meta(address, true, false));
    assert_eq!(AccountMeta::new_readonly(address, false), meta(address, false, false));
}
