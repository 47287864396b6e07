//! The instruction that sells tokens to a bonding curve.

use vstd::prelude::*;
use crate::associated_token::{associated_token_address, get_associated_token_address};
use crate::constants::{ASSOCIATED_TOKEN_PROGRAM, EVENT_AUTHORITY, SYSTEM_PROGRAM, TOKEN_PROGRAM};
use crate::errors::ErrorCode;
use crate::instruction::{
    account_data_view, accounts_view, built_view, instructions_view, readonly, writable,
    AccountMeta, AccountMetaView, Instruction, InstructionView,
};
use crate::pda::{
    associated_bonding_curve_address, bonding_curve_address, get_associated_bonding_curve,
    get_bonding_curve_pda, get_global_pda, global_address, has_trade_addresses,
    trade_addresses_exist,
};
use crate::pubkey::Pubkey;
use crate::slippage::{apply_slippage, slippage_adjusted};
use crate::states::global::{global_fee_recipient, global_layout_ok, Global};
use crate::wire::{lemma_u64_le_round_trip, put_u64, read_u64, u64_from_le_bytes, u64_le_bytes};
use crate::PUMP_DOT_FUN_PROGRAM_ID;

verus! {

/// The eight bytes that mark a payload as a sale.
pub const SELL_DISCRIMINATOR: [u8; 8] = [51, 230, 133, 164, 1, 127, 131, 173];

/// What the payload carries.
#[derive(Clone, Copy, Debug, PartialEq, Eq)]
pub struct SellArgs {
    pub amount: u64,
    /// The output floor with the tolerance added.
    pub min_sol_output: u64,
}

/// What the caller asks for.
#[derive(Clone, Copy, Debug, PartialEq, Eq)]
pub struct Sell {
    /// The number of tokens to sell.
    pub amount: u64,
    /// The least that the caller accepts, before the tolerance.
    pub min_sol_output: u64,
    /// The tolerance; a negative one is refused.
    pub slippage: i64,
}

/// The accounts that the caller supplies to a sale.
#[derive(Clone, Copy, Debug, PartialEq, Eq)]
pub struct SellAccounts {
    pub mint: Pubkey,
    pub user: Pubkey,
}

impl SellArgs {
    /// The sixteen bytes of the arguments: the amount, then the output floor.
    pub open spec fn encoding(&self) -> Seq<u8> {
        u64_le_bytes(self.amount) + u64_le_bytes(self.min_sol_output)
    }

    /// Whether these are the arguments that `data` holds.
    pub open spec fn holds(&self, data: Seq<u8>) -> bool {
        &&& self.amount == u64_from_le_bytes(data.subrange(0, 8))
        &&& self.min_sol_output == u64_from_le_bytes(data.subrange(8, 16))
    }

    /// Writes the arguments.
    pub fn to_vec(&self) -> (r: Vec<u8>)
        ensures
            r@ == self.encoding(),
    {
        let mut out: Vec<u8> = Vec::new();
        put_u64(&mut out, self.amount);
        put_u64(&mut out, self.min_sol_output);
        out
    }

    /// Reads the arguments from exactly sixteen bytes; `None` for any other length.
    pub fn try_from_slice(data: &[u8]) -> (r: Option<SellArgs>)
        ensures
            match r {
                Some(args) => data@.len() == 16 && args.holds(data@),
                None => data@.len() != 16,
            },
    {
        if data.len() != 16 {
            return None;
        }
        Some(SellArgs { amount: read_u64(data, 0), min_sol_output: read_u64(data, 8) })
    }
}

/// Reading what `to_vec` wrote gives the arguments back.
pub proof fn lemma_sell_args_round_trip(args: SellArgs)
    ensures
        args.encoding().len() == 16,
        args.holds(args.encoding()),
{
    lemma_u64_le_round_trip(args.amount);
    lemma_u64_le_round_trip(args.min_sol_output);
    assert(args.encoding().subrange(0, 8) =~= u64_le_bytes(args.amount));
    assert(args.encoding().subrange(8, 16) =~= u64_le_bytes(args.min_sol_output));
}

/// The payload of a sale: the marker, then the arguments.
pub open spec fn sell_data(args: SellArgs) -> Seq<u8> {
    SELL_DISCRIMINATOR@ + args.encoding()
}

/// The twelve account references of a sale, in the order the program expects.
pub open spec fn sell_account_metas(
    mint: Seq<u8>,
    user: Seq<u8>,
    fee_recipient: Seq<u8>,
) -> Seq<AccountMetaView> {
    seq![
        readonly(global_address().unwrap(), false),
        writable(fee_recipient, true),
        readonly(mint, false),
        writable(bonding_curve_address(mint).unwrap(), true),
        writable(associated_bonding_curve_address(mint).unwrap(), true),
        writable(associated_token_address(user, TOKEN_PROGRAM@, mint).unwrap(), true),
        writable(user, true),
        readonly(SYSTEM_PROGRAM@, false),
        readonly(ASSOCIATED_TOKEN_PROGRAM@, false),
        readonly(TOKEN_PROGRAM@, false),
        readonly(EVENT_AUTHORITY@, false),
        readonly(PUMP_DOT_FUN_PROGRAM_ID@, false),
    ]
}

/// The sale instruction for a fee recipient and an adjusted output floor.
pub open spec fn sell_instruction(
    program_id: Seq<u8>,
    accounts: SellAccounts,
    fee_recipient: Seq<u8>,
    args: SellArgs,
) -> InstructionView {
    InstructionView {
        program_id,
        accounts: sell_account_metas(accounts.mint@, accounts.user@, fee_recipient),
        data: sell_data(args),
    }
}

/// What `sell_ix` returns, for the account data that was read (`None`: the read
/// failed).
pub open spec fn sell_ix_spec(
    program_id: Seq<u8>,
    accounts: SellAccounts,
    args: Sell,
    global_account_data: Option<Seq<u8>>,
) -> Result<Seq<InstructionView>, ErrorCode> {
    if args.slippage < 0 {
        Err(ErrorCode::InvalidSlippage)
    } else if global_account_data.is_none() {
        Err(ErrorCode::ConfigNotFound)
    } else if !global_layout_ok(global_account_data.unwrap()) {
        Err(ErrorCode::DecodeError)
    } else if slippage_adjusted(args.min_sol_output as int, args.slippage as int) > u64::MAX {
        Err(ErrorCode::Overflow)
    } else {
        Ok(
            seq![
                sell_instruction(
                    program_id,
                    accounts,
                    global_fee_recipient(global_account_data.unwrap()),
                    (SellArgs {
                        amount: args.amount,
                        min_sol_output: slippage_adjusted(
                            args.min_sol_output as int,
                            args.slippage as int,
                        ) as u64,
                    }),
                ),
            ],
        )
    }
}

/// Whether a sale depends on the data of the global configuration account: it does
/// unless the tolerance is refused.
pub open spec fn sell_reads_global(args: Sell) -> bool {
    args.slippage >= 0
}

/// Tells the caller whether to read the global configuration account before it calls
/// `sell_ix`. Where it need not, any value serves as the account data.
pub fn sell_needs_global(args: &Sell) -> (r: bool)
    ensures
        r == sell_reads_global(*args),
{
    args.slippage >= 0
}

/// Whether every address that `sell_ix` derives on these inputs can be derived. A
/// negative tolerance is refused before any is derived.
pub open spec fn sell_addresses_exist(accounts: SellAccounts, args: Sell) -> bool {
    args.slippage >= 0 ==> trade_addresses_exist(accounts.mint@, accounts.user@)
}

/// Builds the instruction of a sale from what was read of the chain: the data of the
/// global configuration account (`None` where the read failed).
pub fn sell_ix(
    program_id: &Pubkey,
    accounts: SellAccounts,
    args: Sell,
    global_account_data: Option<Vec<u8>>,
) -> (r: Result<Vec<Instruction>, ErrorCode>)
    requires
        sell_addresses_exist(accounts, args),
    ensures
        built_view(r) == sell_ix_spec(
            program_id@,
            accounts,
            args,
            account_data_view(global_account_data),
        ),
{
    let mut data: Vec<u8> = Vec::new();
    data.extend_from_slice(&SELL_DISCRIMINATOR);

    if args.slippage < 0 {
        return Err(ErrorCode::InvalidSlippage);
    }
    let bonding_curve = get_bonding_curve_pda(&accounts.mint);
    let associated_bonding_curve = get_associated_bonding_curve(&accounts.mint);
    let global_pda = get_global_pda();
    let associated_user_token_account = get_associated_token_address(
        &accounts.user,
        &accounts.mint,
    );

    let global_bytes = match global_account_data {
        Some(bytes) => bytes,
        None => {
            return Err(ErrorCode::ConfigNotFound);
        },
    };
    let global = match Global::try_from_slice(global_bytes.as_slice()) {
        Ok(global) => global,
        Err(_) => {
            return Err(ErrorCode::DecodeError);
        },
    };
    let fee_recipient = global.fee_recipient;
    let mut instructions: Vec<Instruction> = Vec::new();

    let mut metas: Vec<AccountMeta> = Vec::new();
    metas.push(AccountMeta::new_readonly(global_pda, false));
    metas.push(AccountMeta::new(fee_recipient, true));
    metas.push(AccountMeta::new_readonly(accounts.mint, false));
    metas.push(AccountMeta::new(bonding_curve, true));
    metas.push(AccountMeta::new(associated_bonding_curve, true));
    metas.push(AccountMeta::new(associated_user_token_account, true));
    metas.push(AccountMeta::new(accounts.user, true));
    metas.push(AccountMeta::new_readonly(Pubkey::new_from_array(SYSTEM_PROGRAM), false));
    metas.push(AccountMeta::new_readonly(Pubkey::new_from_array(ASSOCIATED_TOKEN_PROGRAM), false));
    metas.push(AccountMeta::new_readonly(Pubkey::new_from_array(TOKEN_PROGRAM), false));
    metas.push(AccountMeta::new_readonly(Pubkey::new_from_array(EVENT_AUTHORITY), false));
    metas.push(AccountMeta::new_readonly(Pubkey::new_from_array(PUMP_DOT_FUN_PROGRAM_ID), false));

    let new_sol_amount: u64 = match apply_slippage(args.min_sol_output, args.slippage) {
        Ok(amount) => amount,
        Err(e) => {
            return Err(e);
        },
    };
    let sell_args = SellArgs { amount: args.amount, min_sol_output: new_sol_amount };
    let encoded = sell_args.to_vec();
    data.extend_from_slice(encoded.as_slice());

    assert(accounts_view(metas@) =~= sell_account_metas(
        accounts.mint@,
        accounts.user@,
        fee_recipient@,
    ));
    assert(data@ =~= sell_data(sell_args));
    let sell_instruction = Instruction { program_id: *program_id, accounts: metas, data };
    instructions.push(sell_instruction);
    assert(instructions_view(instructions@) =~= sell_ix_spec(
        program_id@,
        accounts,
        args,
        Some(global_bytes@),
    ).unwrap());
    Ok(instructions)
}

/// Builds the instruction of a sale where every address that `sell_ix` derives on these
/// inputs can be derived; `None` otherwise.
pub fn try_sell_ix(
    program_id: &Pubkey,
    accounts: SellAccounts,
    args: Sell,
    global_account_data: Option<Vec<u8>>,
) -> (r: Option<Result<Vec<Instruction>, ErrorCode>>)
    ensures
        match r {
            Some(built) => {
                &&& sell_addresses_exist(accounts, args)
                &&& built_view(built) == sell_ix_spec(
                    program_id@,
                    accounts,
                    args,
                    account_data_view(global_account_data),
                )
            },
            None => !sell_addresses_exist(accounts, args),
        },
{
    if args.slippage >= 0 && !has_trade_addresses(&accounts.mint, &accounts.user) {
        return None;
    }
    Some(sell_ix(program_id, accounts, args, global_account_data))
}

/// Every sale payload is 24 bytes long and starts with the bytes 51, 230, 133, 164, 1,
/// 127, 131, 173.
pub proof fn lemma_sell_opcode(args: SellArgs)
    ensures
        sell_data(args).len() == 24,
        sell_data(args).subrange(0, 8) == seq![51u8, 230, 133, 164, 1, 127, 131, 173],
{
    assert(sell_data(args).subrange(0, 8) =~= seq![51u8, 230, 133, 164, 1, 127, 131, 173]);
}

/// A sale with a negative tolerance fails with `InvalidSlippage`, whatever was read of
/// the chain, and so builds no instruction.
pub proof fn lemma_sell_negative_slippage(
    program_id: Seq<u8>,
    accounts: SellAccounts,
    args: Sell,
    global_account_data: Option<Seq<u8>>,
)
    requires
        args.slippage < 0,
    ensures
        sell_ix_spec(program_id, accounts, args, global_account_data) == Err::<
            Seq<InstructionView>,
            ErrorCode,
        >(ErrorCode::InvalidSlippage),
{
}

/// A read that `sell_needs_global` says is not needed does not change what a sale
/// returns.
pub proof fn lemma_sell_ignores_what_it_need_not_read(
    program_id: Seq<u8>,
    accounts: SellAccounts,
    args: Sell,
    global_account_data: Option<Seq<u8>>,
    other_data: Option<Seq<u8>>,
)
    ensures
        !sell_reads_global(args) ==> sell_ix_spec(program_id, accounts, args, global_account_data)
            == sell_ix_spec(program_id, accounts, args, other_data),
{
}

} // verus!
