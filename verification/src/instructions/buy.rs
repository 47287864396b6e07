//! The instruction that buys tokens from a bonding curve.

use vstd::prelude::*;
use crate::associated_token::{
    associated_token_address, create_associated_token_account_idempotent,
    create_idempotent_instruction, get_associated_token_address,
};
use crate::constants::{EVENT_AUTHORITY, RENT_SYSVAR, SYSTEM_PROGRAM, TOKEN_PROGRAM};
use crate::errors::ErrorCode;
use crate::instruction::{
    account_data_view, accounts_view, built_view, instructions_view, readonly, writable,
    AccountMeta, AccountMetaView, Instruction, InstructionView,
};
use crate::pda::{
    associated_bonding_curve_address, bonding_curve_address, get_associated_bonding_curve,
    get_bonding_curve_pda, get_global_pda, global_address, has_trade_addresses,
    trade_addresses_exist,
};
use crate::pubkey::Pubkey;
use crate::slippage::{apply_slippage, slippage_adjusted};
use crate::states::global::{global_fee_recipient, global_layout_ok, Global};
use crate::wire::{lemma_u64_le_round_trip, put_u64, read_u64, u64_from_le_bytes, u64_le_bytes};
use crate::PUMP_DOT_FUN_PROGRAM_ID;

verus! {

/// The eight bytes that mark a payload as a purchase.
pub const BUY_DISCRIMINATOR: [u8; 8] = [102, 6, 61, 18, 1, 218, 235, 234];

/// What the caller asks for.
#[derive(Clone, Copy, Debug, PartialEq, Eq)]
pub struct Buy {
    /// The number of tokens to buy.
    pub amount: u64,
    /// The most that the caller is willing to pay, before the tolerance.
    pub max_sol_cost: u64,
    /// The tolerance; a negative one is refused.
    pub slippage: i64,
}

/// What the payload carries.
#[derive(Clone, Copy, Debug, PartialEq, Eq)]
pub struct BuyArgs {
    pub amount: u64,
    /// The cost ceiling with the tolerance added.
    pub max_sol_cost: u64,
}

/// The accounts that the caller supplies to a purchase.
#[derive(Clone, Copy, Debug, PartialEq, Eq)]
pub struct BuyAccounts {
    pub mint: Pubkey,
    pub user: Pubkey,
}

impl BuyArgs {
    /// The sixteen bytes of the arguments: the amount, then the cost ceiling.
    pub open spec fn encoding(&self) -> Seq<u8> {
        u64_le_bytes(self.amount) + u64_le_bytes(self.max_sol_cost)
    }

    /// Whether these are the arguments that `data` holds.
    pub open spec fn holds(&self, data: Seq<u8>) -> bool {
        &&& self.amount == u64_from_le_bytes(data.subrange(0, 8))
        &&& self.max_sol_cost == u64_from_le_bytes(data.subrange(8, 16))
    }

    /// Writes the arguments.
    pub fn to_vec(&self) -> (r: Vec<u8>)
        ensures
            r@ == self.encoding(),
    {
        let mut out: Vec<u8> = Vec::new();
        put_u64(&mut out, self.amount);
        put_u64(&mut out, self.max_sol_cost);
        out
    }

    /// Reads the arguments from exactly sixteen bytes; `None` for any other length.
    pub fn try_from_slice(data: &[u8]) -> (r: Option<BuyArgs>)
        ensures
            match r {
                Some(args) => data@.len() == 16 && args.holds(data@),
                None => data@.len() != 16,
            },
    {
        if data.len() != 16 {
            return None;
        }
        Some(BuyArgs { amount: read_u64(data, 0), max_sol_cost: read_u64(data, 8) })
    }
}

/// Reading what `to_vec` wrote gives the arguments back.
pub proof fn lemma_buy_args_round_trip(args: BuyArgs)
    ensures
        args.encoding().len() == 16,
        args.holds(args.encoding()),
{
    lemma_u64_le_round_trip(args.amount);
    lemma_u64_le_round_trip(args.max_sol_cost);
    assert(args.encoding().subrange(0, 8) =~= u64_le_bytes(args.amount));
    assert(args.encoding().subrange(8, 16) =~= u64_le_bytes(args.max_sol_cost));
}

/// The payload of a purchase: the marker, then the arguments.
pub open spec fn buy_data(args: BuyArgs) -> Seq<u8> {
    BUY_DISCRIMINATOR@ + args.encoding()
}

/// The twelve account references of a purchase, in the order the program expects.
pub open spec fn buy_account_metas(
    mint: Seq<u8>,
    user: Seq<u8>,
    fee_recipient: Seq<u8>,
) -> Seq<AccountMetaView> {
    seq![
        readonly(global_address().unwrap(), false),
        writable(fee_recipient, true),
        readonly(mint, false),
        writable(bonding_curve_address(mint).unwrap(), true),
        writable(associated_bonding_curve_address(mint).unwrap(), true),
        writable(associated_token_address(user, TOKEN_PROGRAM@, mint).unwrap(), true),
        writable(user, true),
        readonly(SYSTEM_PROGRAM@, false),
        readonly(TOKEN_PROGRAM@, false),
        readonly(RENT_SYSVAR@, false),
        readonly(EVENT_AUTHORITY@, false),
        readonly(PUMP_DOT_FUN_PROGRAM_ID@, false),
    ]
}

/// The purchase instruction for a fee recipient and an adjusted cost ceiling.
pub open spec fn buy_instruction(
    program_id: Seq<u8>,
    accounts: BuyAccounts,
    fee_recipient: Seq<u8>,
    args: BuyArgs,
) -> InstructionView {
    InstructionView {
        program_id,
        accounts: buy_account_metas(accounts.mint@, accounts.user@, fee_recipient),
        data: buy_data(args),
    }
}

/// The instruction that opens the user's token account, which goes before a purchase
/// where the account does not exist yet. The user pays for the account, and it is the
/// account that the purchase names.
pub open spec fn buy_token_account_instruction(accounts: BuyAccounts) -> InstructionView {
    create_idempotent_instruction(accounts.user@, accounts.user@, accounts.mint@, TOKEN_PROGRAM@)
}

/// What `buy_ix` returns, for the account data that was read (`None`: the read failed)
/// and for whether the user's token account exists.
pub open spec fn buy_ix_spec(
    program_id: Seq<u8>,
    accounts: BuyAccounts,
    args: Buy,
    global_account_data: Option<Seq<u8>>,
    token_account_exists: bool,
) -> Result<Seq<InstructionView>, ErrorCode> {
    if args.slippage < 0 {
        Err(ErrorCode::InvalidSlippage)
    } else if global_account_data.is_none() {
        Err(ErrorCode::ConfigNotFound)
    } else if !global_layout_ok(global_account_data.unwrap()) {
        Err(ErrorCode::DecodeError)
    } else if slippage_adjusted(args.max_sol_cost as int, args.slippage as int) > u64::MAX {
        Err(ErrorCode::Overflow)
    } else {
        let purchase = buy_instruction(
            program_id,
            accounts,
            global_fee_recipient(global_account_data.unwrap()),
            (BuyArgs {
                amount: args.amount,
                max_sol_cost: slippage_adjusted(
                    args.max_sol_cost as int,
                    args.slippage as int,
                ) as u64,
            }),
        );
        if token_account_exists {
            Ok(seq![purchase])
        } else {
            Ok(seq![buy_token_account_instruction(accounts), purchase])
        }
    }
}

/// Whether a purchase depends on the data of the global configuration account: it does
/// unless the tolerance is refused.
pub open spec fn buy_reads_global(args: Buy) -> bool {
    args.slippage >= 0
}

/// Whether a purchase depends on the user's token account existing: it does once the
/// tolerance is accepted and the configuration was read and matches its layout.
pub open spec fn buy_reads_token_account(args: Buy, global_account_data: Option<Seq<u8>>) -> bool {
    &&& args.slippage >= 0
    &&& global_account_data.is_some()
    &&& global_layout_ok(global_account_data.unwrap())
}

/// Tells the caller whether to read the global configuration account before it calls
/// `buy_ix`. Where it need not, any value serves as the account data.
pub fn buy_needs_global(args: &Buy) -> (r: bool)
    ensures
        r == buy_reads_global(*args),
{
    args.slippage >= 0
}

/// Tells the caller whether to look for the user's token account before it calls
/// `buy_ix`, given what came of reading the configuration. Where it need not, either
/// answer serves.
pub fn buy_needs_token_account(args: &Buy, global_account_data: &Option<Vec<u8>>) -> (r: bool)
    ensures
        r == buy_reads_token_account(*args, account_data_view(*global_account_data)),
{
    if args.slippage < 0 {
        return false;
    }
    match global_account_data {
        Some(bytes) => Global::try_from_slice(bytes.as_slice()).is_ok(),
        None => false,
    }
}

/// Whether every address that `buy_ix` derives on these inputs can be derived. A
/// negative tolerance is refused before any is derived.
pub open spec fn buy_addresses_exist(accounts: BuyAccounts, args: Buy) -> bool {
    args.slippage >= 0 ==> trade_addresses_exist(accounts.mint@, accounts.user@)
}

/// Builds the instructions of a purchase from what was read of the chain: the data of
/// the global configuration account (`None` where the read failed) and whether the
/// user's token account exists.
pub fn buy_ix(
    program_id: &Pubkey,
    accounts: BuyAccounts,
    args: Buy,
    global_account_data: Option<Vec<u8>>,
    token_account_exists: bool,
) -> (r: Result<Vec<Instruction>, ErrorCode>)
    requires
        buy_addresses_exist(accounts, args),
    ensures
        built_view(r) == buy_ix_spec(
            program_id@,
            accounts,
            args,
            account_data_view(global_account_data),
            token_account_exists,
        ),
{
    if args.slippage < 0 {
        return Err(ErrorCode::InvalidSlippage);
    }
    let mut data: Vec<u8> = Vec::new();
    data.extend_from_slice(&BUY_DISCRIMINATOR);

    let bonding_curve = get_bonding_curve_pda(&accounts.mint);
    let associated_bonding_curve = get_associated_bonding_curve(&accounts.mint);
    let global_pda = get_global_pda();
    let associated_user_token_account = get_associated_token_address(
        &accounts.user,
        &accounts.mint,
    );

    let global_bytes = match global_account_data {
        Some(bytes) => bytes,
        None => {
            return Err(ErrorCode::ConfigNotFound);
        },
    };
    let global = match Global::try_from_slice(global_bytes.as_slice()) {
        Ok(global) => global,
        Err(_) => {
            return Err(ErrorCode::DecodeError);
        },
    };
    let fee_recipient = global.fee_recipient;

    let mut instructions: Vec<Instruction> = Vec::new();
    if !token_account_exists {
        let create_ata_ix = create_associated_token_account_idempotent(
            &accounts.user,
            &accounts.user,
            &accounts.mint,
            &Pubkey::new_from_array(TOKEN_PROGRAM),
        );
        instructions.push(create_ata_ix);
    }
    let mut metas: Vec<AccountMeta> = Vec::new();
    metas.push(AccountMeta::new_readonly(global_pda, false));
    metas.push(AccountMeta::new(fee_recipient, true));
    metas.push(AccountMeta::new_readonly(accounts.mint, false));
    metas.push(AccountMeta::new(bonding_curve, true));
    metas.push(AccountMeta::new(associated_bonding_curve, true));
    metas.push(AccountMeta::new(associated_user_token_account, true));
    metas.push(AccountMeta::new(accounts.user, true));
    metas.push(AccountMeta::new_readonly(Pubkey::new_from_array(SYSTEM_PROGRAM), false));
    metas.push(AccountMeta::new_readonly(Pubkey::new_from_array(TOKEN_PROGRAM), false));
    metas.push(AccountMeta::new_readonly(Pubkey::new_from_array(RENT_SYSVAR), false));
    metas.push(AccountMeta::new_readonly(Pubkey::new_from_array(EVENT_AUTHORITY), false));
    metas.push(AccountMeta::new_readonly(Pubkey::new_from_array(PUMP_DOT_FUN_PROGRAM_ID), false));

    let new_sol_amount: u64 = match apply_slippage(args.max_sol_cost, args.slippage) {
        Ok(amount) => amount,
        Err(e) => {
            return Err(e);
        },
    };
    let buy_args = BuyArgs { amount: args.amount, max_sol_cost: new_sol_amount };
    let encoded = buy_args.to_vec();
    data.extend_from_slice(encoded.as_slice());

    assert(accounts_view(metas@) =~= buy_account_metas(
        accounts.mint@,
        accounts.user@,
        fee_recipient@,
    ));
    assert(data@ =~= buy_data(buy_args));
    let buy_instruction = Instruction { program_id: *program_id, accounts: metas, data };
    instructions.push(buy_instruction);
    assert(instructions_view(instructions@) =~= buy_ix_spec(
        program_id@,
        accounts,
        args,
        Some(global_bytes@),
        token_account_exists,
    ).unwrap());
    Ok(instructions)
}

/// Builds the instructions of a purchase where every address that `buy_ix` derives on
/// these inputs can be derived; `None` otherwise.
pub fn try_buy_ix(
    program_id: &Pubkey,
    accounts: BuyAccounts,
    args: Buy,
    global_account_data: Option<Vec<u8>>,
    token_account_exists: bool,
) -> (r: Option<Result<Vec<Instruction>, ErrorCode>>)
    ensures
        match r {
            Some(built) => {
                &&& buy_addresses_exist(accounts, args)
                &&& built_view(built) == buy_ix_spec(
                    program_id@,
                    accounts,
                    args,
                    account_data_view(global_account_data),
                    token_account_exists,
                )
            },
            None => !buy_addresses_exist(accounts, args),
        },
{
    if args.slippage >= 0 && !has_trade_addresses(&accounts.mint, &accounts.user) {
        return None;
    }
    Some(buy_ix(program_id, accounts, args, global_account_data, token_account_exists))
}

/// Every purchase payload is 24 bytes long and starts with the bytes 102, 6, 61, 18,
/// 1, 218, 235, 234.
pub proof fn lemma_buy_opcode(args: BuyArgs)
    ensures
        buy_data(args).len() == 24,
        buy_data(args).subrange(0, 8) == seq![102u8, 6, 61, 18, 1, 218, 235, 234],
{
    assert(buy_data(args).subrange(0, 8) =~= seq![102u8, 6, 61, 18, 1, 218, 235, 234]);
}

/// A purchase with a negative tolerance fails with `InvalidSlippage`, whatever was read
/// of the chain, and so builds no instruction.
pub proof fn lemma_buy_negative_slippage(
    program_id: Seq<u8>,
    accounts: BuyAccounts,
    args: Buy,
    global_account_data: Option<Seq<u8>>,
    token_account_exists: bool,
)
    requires
        args.slippage < 0,
    ensures
        buy_ix_spec(program_id, accounts, args, global_account_data, token_account_exists) == Err::<
            Seq<InstructionView>,
            ErrorCode,
        >(ErrorCode::InvalidSlippage),
{
}

/// A purchase that succeeds builds two instructions where the user's token account does
/// not exist, the one that opens it and then the purchase, and only the purchase where
/// it exists.
pub proof fn lemma_buy_instruction_count(
    program_id: Seq<u8>,
    accounts: BuyAccounts,
    args: Buy,
    global_account_data: Option<Seq<u8>>,
    token_account_exists: bool,
)
    requires
        buy_ix_spec(program_id, accounts, args, global_account_data, token_account_exists).is_ok(),
    ensures
        ({
            let built = buy_ix_spec(
                program_id,
                accounts,
                args,
                global_account_data,
                token_account_exists,
            ).unwrap();
            &&& token_account_exists ==> built.len() == 1
            &&& !token_account_exists ==> built.len() == 2 && built[0]
                == buy_token_account_instruction(accounts)
            &&& built.last().program_id == program_id
            &&& built.last().accounts.len() == 12
            &&& built.last().data.subrange(0, 8) == BUY_DISCRIMINATOR@
        }),
{
    let built = buy_ix_spec(
        program_id,
        accounts,
        args,
        global_account_data,
        token_account_exists,
    ).unwrap();
    assert(built.last().data.subrange(0, 8) =~= BUY_DISCRIMINATOR@);
}

/// Where a purchase opens the user's token account first, the account that the first
/// instruction creates is the one that the purchase names as the user's token account,
/// and it is created for the token program.
pub proof fn lemma_buy_opens_the_account_it_uses(
    program_id: Seq<u8>,
    accounts: BuyAccounts,
    args: Buy,
    global_account_data: Option<Seq<u8>>,
)
    requires
        buy_ix_spec(program_id, accounts, args, global_account_data, false).is_ok(),
    ensures
        ({
            let built = buy_ix_spec(program_id, accounts, args, global_account_data, false).unwrap();
            &&& built.len() == 2
            &&& built[0].accounts[1].pubkey == built[1].accounts[5].pubkey
            &&& built[0].accounts[1].pubkey == associated_token_address(
                accounts.user@,
                TOKEN_PROGRAM@,
                accounts.mint@,
            ).unwrap()
            &&& built[0].accounts[5].pubkey == TOKEN_PROGRAM@
            &&& built[0].accounts[0].pubkey == accounts.user@
            &&& built[0].accounts[2].pubkey == accounts.user@
            &&& built[0].accounts[3].pubkey == accounts.mint@
        }),
{
}

/// A read that `buy_needs_global` or `buy_needs_token_account` says is not needed does
/// not change what a purchase returns.
pub proof fn lemma_buy_ignores_what_it_need_not_read(
    program_id: Seq<u8>,
    accounts: BuyAccounts,
    args: Buy,
    global_account_data: Option<Seq<u8>>,
    other_data: Option<Seq<u8>>,
    token_account_exists: bool,
    other_exists: bool,
)
    ensures
        !buy_reads_global(args) ==> buy_ix_spec(
            program_id,
            accounts,
            args,
            global_account_data,
            token_account_exists,
        ) == buy_ix_spec(program_id, accounts, args, other_data, other_exists),
        !buy_reads_token_account(args, global_account_data) ==> buy_ix_spec(
            program_id,
            accounts,
            args,
            global_account_data,
            token_account_exists,
        ) == buy_ix_spec(program_id, accounts, args, global_account_data, other_exists),
{
}

} // verus!
