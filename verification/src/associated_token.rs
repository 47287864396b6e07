//! Associated token accounts: the account in which a wallet holds the tokens of a mint.

use vstd::prelude::*;
use crate::constants::{ASSOCIATED_TOKEN_PROGRAM, SYSTEM_PROGRAM, TOKEN_PROGRAM};
use crate::instruction::{readonly, writable, AccountMeta, Instruction, InstructionView};
use crate::pda::program_address;
use crate::pubkey::Pubkey;

verus! {

/// The seeds of a wallet's token account for a mint under a token program.
pub open spec fn associated_token_seeds(
    wallet: Seq<u8>,
    token_program: Seq<u8>,
    mint: Seq<u8>,
) -> Seq<Seq<u8>> {
    seq![wallet, token_program, mint]
}

/// The address of a wallet's token account for a mint under a token program, owned by
/// the associated token account program.
pub open spec fn associated_token_address(
    wallet: Seq<u8>,
    token_program: Seq<u8>,
    mint: Seq<u8>,
) -> Option<Seq<u8>> {
    program_address(associated_token_seeds(wallet, token_program, mint), ASSOCIATED_TOKEN_PROGRAM@)
}

/// The instruction that creates a wallet's token account for a mint unless it exists.
pub open spec fn create_idempotent_instruction(
    funder: Seq<u8>,
    wallet: Seq<u8>,
    mint: Seq<u8>,
    token_program: Seq<u8>,
) -> InstructionView {
    InstructionView {
        program_id: ASSOCIATED_TOKEN_PROGRAM@,
        accounts: seq![
            writable(funder, true),
            writable(associated_token_address(wallet, token_program, mint).unwrap(), false),
            readonly(wallet, false),
            readonly(mint, false),
            readonly(SYSTEM_PROGRAM@, false),
            readonly(token_program, false),
        ],
        data: seq![1u8],
    }
}

/// Calls `get_associated_token_address` of `spl_associated_token_account`, which derives
/// the address from the seeds wallet, token program and mint under the associated token
/// account program, and panics where no address can be derived: the `requires` leaves
/// those inputs out.
#[verifier::external_body]
pub(crate) fn get_associated_token_address(wallet: &Pubkey, mint: &Pubkey) -> (r: Pubkey)
    requires
        associated_token_address(wallet@, TOKEN_PROGRAM@, mint@).is_some(),
    ensures
        Some(r@) == associated_token_address(wallet@, TOKEN_PROGRAM@, mint@),
{
    let wallet = solana_sdk::pubkey::Pubkey::new_from_array(wallet.bytes);
    let mint = solana_sdk::pubkey::Pubkey::new_from_array(mint.bytes);
    let address = spl_associated_token_account::get_associated_token_address(&wallet, &mint);
    Pubkey { bytes: address.to_bytes() }
}

/// Calls `instruction::create_associated_token_account_idempotent` of
/// `spl_associated_token_account`. The instruction goes to the associated token account
/// program, names six accounts (the funder, the token account, the wallet, the mint,
/// the system program and the token program) and carries the one byte 1. The call
/// derives the token account's address and panics where none can be derived: the
/// `requires` leaves those inputs out.
#[verifier::external_body]
pub(crate) fn create_associated_token_account_idempotent(
    funder: &Pubkey,
    wallet: &Pubkey,
    mint: &Pubkey,
    token_program: &Pubkey,
) -> (r: Instruction)
    requires
        associated_token_address(wallet@, token_program@, mint@).is_some(),
    ensures
        r@ == create_idempotent_instruction(funder@, wallet@, mint@, token_program@),
{
    let made = spl_associated_token_account::instruction::create_associated_token_account_idempotent(
        &solana_sdk::pubkey::Pubkey::new_from_array(funder.bytes),
        &solana_sdk::pubkey::Pubkey::new_from_array(wallet.bytes),
        &solana_sdk::pubkey::Pubkey::new_from_array(mint.bytes),
        &solana_sdk::pubkey::Pubkey::new_from_array(token_program.bytes),
    );
    Instruction {
        program_id: Pubkey { bytes: made.program_id.to_bytes() },
        accounts: made.accounts.iter().map(|m| AccountMeta {
            pubkey: Pubkey { bytes: m.pubkey.to_bytes() },
            is_signer: m.is_signer,
            is_writable: m.is_writable,
        }).collect(),
        data: made.data,
    }
}

} // verus!
