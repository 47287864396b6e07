//! Instructions as the execution layer takes them: a program, an ordered list of
//! account references and a payload.

use vstd::prelude::*;
use crate::errors::ErrorCode;
use crate::pubkey::Pubkey;

verus! {

/// A reference to one account of an instruction.
#[derive(Clone, Copy, Debug, PartialEq, Eq)]
pub struct AccountMeta {
    pub pubkey: Pubkey,
    /// Whether the transaction must be signed for this account.
    pub is_signer: bool,
    /// Whether the instruction may change the account.
    pub is_writable: bool,
}

/// What an account reference holds.
pub struct AccountMetaView {
    pub pubkey: Seq<u8>,
    pub is_signer: bool,
    pub is_writable: bool,
}

impl View for AccountMeta {
    type V = AccountMetaView;

    open spec fn view(&self) -> AccountMetaView {
        AccountMetaView {
            pubkey: self.pubkey@,
            is_signer: self.is_signer,
            is_writable: self.is_writable,
        }
    }
}

/// A reference to an account that the instruction may change.
pub open spec fn writable(pubkey: Seq<u8>, is_signer: bool) -> AccountMetaView {
    AccountMetaView { pubkey, is_signer, is_writable: true }
}

/// A reference to an account that the instruction only reads.
pub open spec fn readonly(pubkey: Seq<u8>, is_signer: bool) -> AccountMetaView {
    AccountMetaView { pubkey, is_signer, is_writable: false }
}

impl AccountMeta {
    /// A reference to an account that the instruction may change.
    pub fn new(pubkey: Pubkey, is_signer: bool) -> (r: AccountMeta)
        ensures
            r@ == writable(pubkey@, is_signer),
            r.pubkey == pubkey,
    {
        AccountMeta { pubkey, is_signer, is_writable: true }
    }

    /// A reference to an account that the instruction only reads.
    pub fn new_readonly(pubkey: Pubkey, is_signer: bool) -> (r: AccountMeta)
        ensures
            r@ == readonly(pubkey@, is_signer),
            r.pubkey == pubkey,
    {
        AccountMeta { pubkey, is_signer, is_writable: false }
    }
}

/// A request to one program.
#[derive(Clone, Debug, PartialEq, Eq)]
pub struct Instruction {
    /// The program that executes the instruction.
    pub program_id: Pubkey,
    /// The accounts it works on, in the order the program expects.
    pub accounts: Vec<AccountMeta>,
    /// The payload.
    pub data: Vec<u8>,
}

/// What an instruction holds.
pub struct InstructionView {
    pub program_id: Seq<u8>,
    pub accounts: Seq<AccountMetaView>,
    pub data: Seq<u8>,
}

/// What a list of account references holds.
pub open spec fn accounts_view(accounts: Seq<AccountMeta>) -> Seq<AccountMetaView> {
    accounts.map_values(|m: AccountMeta| m@)
}

impl View for Instruction {
    type V = InstructionView;

    open spec fn view(&self) -> InstructionView {
        InstructionView {
            program_id: self.program_id@,
            accounts: accounts_view(self.accounts@),
            data: self.data@,
        }
    }
}

/// What a list of instructions holds.
pub open spec fn instructions_view(instructions: Seq<Instruction>) -> Seq<InstructionView> {
    instructions.map_values(|i: Instruction| i@)
}

/// What a builder returned: the instructions it built, or why it built none.
pub open spec fn built_view(built: Result<Vec<Instruction>, ErrorCode>) -> Result<
    Seq<InstructionView>,
    ErrorCode,
> {
    match built {
        Ok(instructions) => Ok(instructions_view(instructions@)),
        Err(e) => Err(e),
    }
}

/// The data of an account as it was read, or `None` where the read failed.
pub open spec fn account_data_view(data: Option<Vec<u8>>) -> Option<Seq<u8>> {
    match data {
        Some(bytes) => Some(bytes@),
        None => None,
    }
}

} // verus!
