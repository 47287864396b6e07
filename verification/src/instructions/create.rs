//! The instruction that creates a token with its bonding curve.

use vstd::prelude::*;
use vstd::string::StringSliceAdditionalSpecFns;
use crate::constants::{
    ASSOCIATED_TOKEN_PROGRAM, EVENT_AUTHORITY, MPL_TOKEN_METADATA, RENT_SYSVAR, SYSTEM_PROGRAM,
    TOKEN_PROGRAM,
};
use crate::instruction::{
    accounts_view, readonly, writable, AccountMeta, AccountMetaView, Instruction, InstructionView,
};
use crate::pda::{
    associated_bonding_curve_address, bonding_curve_address, get_associated_bonding_curve,
    get_bonding_curve_pda, get_global_pda, get_metadata_pda, global_address, metadata_address,
    try_get_associated_bonding_curve, try_get_global_pda, try_get_metadata_pda,
};
use crate::pubkey::Pubkey;
use vstd::utf8::decode_utf8;
use crate::wire::{
    lemma_string_at, put_pubkey, put_string, read_pubkey, read_string, string_at, string_bytes,
    string_fits,
};
use crate::PUMP_DOT_FUN_PROGRAM_ID;

verus! {

/// The eight bytes that mark a payload as a creation.
pub const CREATE_DISCRIMINATOR: [u8; 8] = [24, 30, 200, 40, 5, 28, 7, 119];

/// The metadata of the token to create.
#[derive(Clone, Debug, PartialEq, Eq)]
pub struct CreateArgs {
    pub name: String,
    pub symbol: String,
    pub uri: String,
    pub creator: Pubkey,
}

/// The accounts that the caller supplies to a creation.
#[derive(Clone, Copy, Debug, PartialEq, Eq)]
pub struct CreateAccounts {
    /// The mint of the new token.
    pub mint: Pubkey,
    /// The payer.
    pub user: Pubkey,
}

/// Whether bytes match the layout of the metadata: three strings, each behind its
/// length, then the 32 bytes of the creator, and nothing after them.
pub open spec fn create_args_layout_ok(data: Seq<u8>) -> bool {
    &&& string_at(data, 0) matches Some(name)
    &&& string_at(data, name.1) matches Some(symbol)
    &&& string_at(data, symbol.1) matches Some(uri)
    &&& uri.1 + 32 == data.len()
}

impl CreateArgs {
    /// The bytes of the metadata: the three strings, then the creator.
    pub open spec fn encoding(&self) -> Seq<u8> {
        string_bytes(self.name@) + string_bytes(self.symbol@) + string_bytes(self.uri@)
            + self.creator@
    }

    /// Whether this is the metadata that `data` holds, field by field.
    pub open spec fn holds(&self, data: Seq<u8>) -> bool {
        let name = string_at(data, 0).unwrap();
        let symbol = string_at(data, name.1).unwrap();
        let uri = string_at(data, symbol.1).unwrap();
        &&& self.name@ == decode_utf8(name.0)
        &&& self.symbol@ == decode_utf8(symbol.0)
        &&& self.uri@ == decode_utf8(uri.0)
        &&& self.creator@ == data.subrange(uri.1, uri.1 + 32)
    }

    /// Writes the metadata; `None` where a string is too long for its length to be
    /// written in four bytes.
    pub fn try_to_vec(&self) -> (r: Option<Vec<u8>>)
        ensures
            match r {
                Some(bytes) => create_args_fit(*self) && bytes@ == self.encoding(),
                None => !create_args_fit(*self),
            },
    {
        if self.name.as_str().as_bytes().len() > 0xffff_ffff
            || self.symbol.as_str().as_bytes().len() > 0xffff_ffff
            || self.uri.as_str().as_bytes().len() > 0xffff_ffff {
            return None;
        }
        let mut out: Vec<u8> = Vec::new();
        put_string(&mut out, self.name.as_str());
        put_string(&mut out, self.symbol.as_str());
        put_string(&mut out, self.uri.as_str());
        put_pubkey(&mut out, &self.creator);
        Some(out)
    }

    /// Reads the metadata from bytes that match the layout exactly; `None` for all
    /// others.
    pub fn try_from_slice(data: &[u8]) -> (r: Option<CreateArgs>)
        ensures
            match r {
                Some(args) => create_args_layout_ok(data@) && args.holds(data@),
                None => !create_args_layout_ok(data@),
            },
    {
        let (name, after_name) = match read_string(data, 0) {
            Some(read) => read,
            None => {
                return None;
            },
        };
        let (symbol, after_symbol) = match read_string(data, after_name) {
            Some(read) => read,
            None => {
                return None;
            },
        };
        let (uri, after_uri) = match read_string(data, after_symbol) {
            Some(read) => read,
            None => {
                return None;
            },
        };
        if data.len() - after_uri != 32 {
            return None;
        }
        let creator = read_pubkey(data, after_uri);
        Some(CreateArgs { name, symbol, uri, creator })
    }
}

/// Reading what `try_to_vec` wrote gives the metadata back: the bytes match the layout
/// and hold every field.
pub proof fn lemma_create_args_round_trip(args: CreateArgs)
    requires
        create_args_fit(args),
    ensures
        create_args_layout_ok(args.encoding()),
        args.holds(args.encoding()),
{
    let data = args.encoding();
    let name = string_bytes(args.name@);
    let symbol = string_bytes(args.symbol@);
    let uri = string_bytes(args.uri@);
    let after_name = name.len() as int;
    let after_symbol = after_name + symbol.len();
    let after_uri = after_symbol + uri.len();
    assert(data.len() == after_uri + 32);
    assert(data.subrange(0, after_name) =~= name);
    assert(data.subrange(after_name, after_symbol) =~= symbol);
    assert(data.subrange(after_symbol, after_uri) =~= uri);
    assert(data.subrange(after_uri, after_uri + 32) =~= args.creator@);
    lemma_string_at(data, 0, args.name@);
    lemma_string_at(data, after_name, args.symbol@);
    lemma_string_at(data, after_symbol, args.uri@);
}

/// The payload of a creation: the marker, then the metadata.
pub open spec fn create_data(args: CreateArgs) -> Seq<u8> {
    CREATE_DISCRIMINATOR@ + args.encoding()
}

/// The thirteen account references of a creation, in the order the program expects.
pub open spec fn create_account_metas(mint: Seq<u8>, user: Seq<u8>) -> Seq<AccountMetaView> {
    seq![
        writable(mint, true),
        writable(bonding_curve_address(mint).unwrap(), false),
        writable(associated_bonding_curve_address(mint).unwrap(), false),
        readonly(global_address().unwrap(), false),
        readonly(MPL_TOKEN_METADATA@, false),
        writable(metadata_address(mint).unwrap(), false),
        writable(user, true),
        readonly(SYSTEM_PROGRAM@, false),
        readonly(TOKEN_PROGRAM@, false),
        readonly(ASSOCIATED_TOKEN_PROGRAM@, false),
        readonly(RENT_SYSVAR@, false),
        readonly(EVENT_AUTHORITY@, false),
        readonly(PUMP_DOT_FUN_PROGRAM_ID@, false),
    ]
}

/// The creation instruction.
pub open spec fn create_instruction(
    program_id: Seq<u8>,
    accounts: CreateAccounts,
    args: CreateArgs,
) -> InstructionView {
    InstructionView {
        program_id,
        accounts: create_account_metas(accounts.mint@, accounts.user@),
        data: create_data(args),
    }
}

/// Whether every address that a creation for this mint names can be derived.
pub open spec fn create_addresses_exist(mint: Seq<u8>) -> bool {
    &&& associated_bonding_curve_address(mint).is_some()
    &&& metadata_address(mint).is_some()
    &&& global_address().is_some()
}

/// Whether the three strings are short enough to be encoded.
pub open spec fn create_args_fit(args: CreateArgs) -> bool {
    &&& string_fits(args.name@)
    &&& string_fits(args.symbol@)
    &&& string_fits(args.uri@)
}

/// Builds the creation instruction: one instruction to `program_id`, with thirteen
/// account references and the encoded metadata.
pub fn create_ix(program_id: &Pubkey, accounts: CreateAccounts, args: CreateArgs) -> (r:
    Instruction)
    requires
        create_addresses_exist(accounts.mint@),
        create_args_fit(args),
    ensures
        r@ == create_instruction(program_id@, accounts, args),
{
    let mut data: Vec<u8> = Vec::new();
    data.extend_from_slice(&CREATE_DISCRIMINATOR);
    let encoded = args.try_to_vec().unwrap();
    data.extend_from_slice(encoded.as_slice());

    let bonding_curve = get_bonding_curve_pda(&accounts.mint);
    let associated_bonding_curve = get_associated_bonding_curve(&accounts.mint);
    let metadata_pda = get_metadata_pda(&accounts.mint);
    let global_pda = get_global_pda();

    let mut metas: Vec<AccountMeta> = Vec::new();
    metas.push(AccountMeta::new(accounts.mint, true));
    metas.push(AccountMeta::new(bonding_curve, false));
    metas.push(AccountMeta::new(associated_bonding_curve, false));
    metas.push(AccountMeta::new_readonly(global_pda, false));
    metas.push(AccountMeta::new_readonly(Pubkey::new_from_array(MPL_TOKEN_METADATA), false));
    metas.push(AccountMeta::new(metadata_pda, false));
    metas.push(AccountMeta::new(accounts.user, true));
    metas.push(AccountMeta::new_readonly(Pubkey::new_from_array(SYSTEM_PROGRAM), false));
    metas.push(AccountMeta::new_readonly(Pubkey::new_from_array(TOKEN_PROGRAM), false));
    metas.push(AccountMeta::new_readonly(Pubkey::new_from_array(ASSOCIATED_TOKEN_PROGRAM), false));
    metas.push(AccountMeta::new_readonly(Pubkey::new_from_array(RENT_SYSVAR), false));
    metas.push(AccountMeta::new_readonly(Pubkey::new_from_array(EVENT_AUTHORITY), false));
    metas.push(AccountMeta::new_readonly(Pubkey::new_from_array(PUMP_DOT_FUN_PROGRAM_ID), false));

    assert(accounts_view(metas@) =~= create_account_metas(accounts.mint@, accounts.user@));
    assert(data@ =~= create_data(args));
    Instruction { program_id: *program_id, accounts: metas, data }
}

/// Builds the creation instruction where every address it names can be derived and the
/// strings can be encoded; `None` otherwise.
pub fn try_create_ix(program_id: &Pubkey, accounts: CreateAccounts, args: CreateArgs) -> (r:
    Option<Instruction>)
    ensures
        match r {
            Some(instruction) => {
                &&& create_addresses_exist(accounts.mint@)
                &&& create_args_fit(args)
                &&& instruction@ == create_instruction(program_id@, accounts, args)
            },
            None => !(create_addresses_exist(accounts.mint@) && create_args_fit(args)),
        },
{
    if try_get_associated_bonding_curve(&accounts.mint).is_none() {
        return None;
    }
    if try_get_metadata_pda(&accounts.mint).is_none() {
        return None;
    }
    if try_get_global_pda().is_none() {
        return None;
    }
    if args.try_to_vec().is_none() {
        return None;
    }
    Some(create_ix(program_id, accounts, args))
}

/// Every creation payload starts with the bytes 24, 30, 200, 40, 5, 28, 7, 119.
pub proof fn lemma_create_opcode(args: CreateArgs)
    ensures
        create_data(args).len() >= 8,
        create_data(args).subrange(0, 8) == seq![24u8, 30, 200, 40, 5, 28, 7, 119],
{
    assert(create_data(args).subrange(0, 8) =~= seq![24u8, 30, 200, 40, 5, 28, 7, 119]);
}

} // verus!
