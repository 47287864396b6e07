//! Builders for the instructions of a bonding-curve token-launch program.

use vstd::prelude::*;

pub mod associated_token;
pub mod constants;
pub mod errors;
pub mod instruction;
pub mod instructions;
pub mod pda;
pub mod pubkey;
pub mod slippage;
pub mod states;
pub mod wire;

pub use crate::errors::ErrorCode;
pub use crate::instruction::{AccountMeta, Instruction};
pub use crate::instructions::buy::{
    buy_ix, buy_needs_global, buy_needs_token_account, try_buy_ix, Buy, BuyAccounts, BuyArgs,
};
pub use crate::instructions::create::{create_ix, try_create_ix, CreateAccounts, CreateArgs};
pub use crate::instructions::sell::{
    sell_ix, sell_needs_global, try_sell_ix, Sell, SellAccounts, SellArgs,
};
pub use crate::pubkey::Pubkey;
pub use crate::states::global::Global;

verus! {

/// The program that the instructions are built for,
/// `6EF8rrecthR5Dkzon8Nwu78hRvfCKubJ14M5uBEwF6P`.
pub const PUMP_DOT_FUN_PROGRAM_ID: [u8; 32] = [
    1, 86, 224, 246, 147, 102, 90, 207, 68, 219, 21, 104, 191, 23, 91, 170, 81, 137, 203, 151, 245,
    210, 255, 59, 101, 93, 43, 182, 253, 109, 24, 176,
];

} // verus!
