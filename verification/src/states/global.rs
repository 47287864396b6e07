//! The program-wide configuration account.

use vstd::prelude::*;
use crate::errors::ErrorCode;
use crate::pubkey::Pubkey;
use crate::wire::{
    lemma_u64_le_round_trip, put_pubkey, put_u64, read_pubkey, read_u64, u64_from_le_bytes,
    u64_le_bytes,
};

verus! {

/// The number of bytes of the configuration account's data.
pub const GLOBAL_LEN: usize = 410;

/// The program-wide configuration.
#[derive(Clone, Copy, Debug, PartialEq, Eq)]
pub struct Global {
    pub initialized: bool,
    pub authority: Pubkey,
    pub fee_recipient: Pubkey,
    pub initial_virtual_token_reserves: u64,
    pub initial_virtual_sol_reserves: u64,
    pub initial_real_token_reserves: u64,
    pub token_total_supply: u64,
    pub fee_basis_points: u64,
    pub withdraw_authority: Pubkey,
    pub enable_migrate: bool,
    pub pool_migration_fee: u64,
    pub creator_fee_basis_points: u64,
    pub fee_recipients: [Pubkey; 7],
    pub set_creator_authority: Pubkey,
}

/// Whether bytes match the fixed layout: 410 of them, and each of the two flags 0 or 1.
pub open spec fn global_layout_ok(data: Seq<u8>) -> bool {
    &&& data.len() == 410
    &&& data[0] <= 1
    &&& data[137] <= 1
}

/// The fee recipient that account data names.
pub open spec fn global_fee_recipient(data: Seq<u8>) -> Seq<u8> {
    data.subrange(33, 65)
}

/// The byte of a flag.
pub open spec fn bool_byte(b: bool) -> u8 {
    if b {
        1
    } else {
        0
    }
}

impl Global {
    /// Whether this is the configuration that `data` holds, field by field.
    pub open spec fn holds(&self, data: Seq<u8>) -> bool {
        &&& self.initialized == (data[0] == 1)
        &&& self.authority@ == data.subrange(1, 33)
        &&& self.fee_recipient@ == global_fee_recipient(data)
        &&& self.initial_virtual_token_reserves == u64_from_le_bytes(data.subrange(65, 73))
        &&& self.initial_virtual_sol_reserves == u64_from_le_bytes(data.subrange(73, 81))
        &&& self.initial_real_token_reserves == u64_from_le_bytes(data.subrange(81, 89))
        &&& self.token_total_supply == u64_from_le_bytes(data.subrange(89, 97))
        &&& self.fee_basis_points == u64_from_le_bytes(data.subrange(97, 105))
        &&& self.withdraw_authority@ == data.subrange(105, 137)
        &&& self.enable_migrate == (data[137] == 1)
        &&& self.pool_migration_fee == u64_from_le_bytes(data.subrange(138, 146))
        &&& self.creator_fee_basis_points == u64_from_le_bytes(data.subrange(146, 154))
        &&& forall|i: int|
            0 <= i < 7 ==> (#[trigger] self.fee_recipients[i])@ == data.subrange(
                154 + 32 * i,
                186 + 32 * i,
            )
        &&& self.set_creator_authority@ == data.subrange(378, 410)
    }

    /// The bytes of this configuration in the fixed layout: the fields in their order,
    /// every flag as one byte, every integer as eight, every address as its 32.
    pub open spec fn encoding(&self) -> Seq<u8> {
        encoding_head(*self) + encoding_middle(*self) + encoding_tail(*self)
    }

    /// Reads a configuration from account data. The data must match the layout exactly:
    /// no byte may be missing and none may be left over.
    pub fn try_from_slice(data: &[u8]) -> (r: Result<Global, ErrorCode>)
        ensures
            match r {
                Ok(global) => global_layout_ok(data@) && global.holds(data@),
                Err(e) => !global_layout_ok(data@) && e == ErrorCode::DecodeError,
            },
    {
        if data.len() != GLOBAL_LEN || data[0] > 1 || data[137] > 1 {
            return Err(ErrorCode::DecodeError);
        }
        let fee_recipients: [Pubkey; 7] = [
            read_pubkey(data, 154),
            read_pubkey(data, 186),
            read_pubkey(data, 218),
            read_pubkey(data, 250),
            read_pubkey(data, 282),
            read_pubkey(data, 314),
            read_pubkey(data, 346),
        ];
        Ok(
            Global {
                initialized: data[0] == 1,
                authority: read_pubkey(data, 1),
                fee_recipient: read_pubkey(data, 33),
                initial_virtual_token_reserves: read_u64(data, 65),
                initial_virtual_sol_reserves: read_u64(data, 73),
                initial_real_token_reserves: read_u64(data, 81),
                token_total_supply: read_u64(data, 89),
                fee_basis_points: read_u64(data, 97),
                withdraw_authority: read_pubkey(data, 105),
                enable_migrate: data[137] == 1,
                pool_migration_fee: read_u64(data, 138),
                creator_fee_basis_points: read_u64(data, 146),
                fee_recipients,
                set_creator_authority: read_pubkey(data, 378),
            },
        )
    }

    /// Writes the configuration in the fixed layout.
    pub fn to_vec(&self) -> (r: Vec<u8>)
        ensures
            r@ == self.encoding(),
    {
        let mut out: Vec<u8> = Vec::new();
        out.push(if self.initialized { 1u8 } else { 0u8 });
        put_pubkey(&mut out, &self.authority);
        put_pubkey(&mut out, &self.fee_recipient);
        put_u64(&mut out, self.initial_virtual_token_reserves);
        put_u64(&mut out, self.initial_virtual_sol_reserves);
        put_u64(&mut out, self.initial_real_token_reserves);
        put_u64(&mut out, self.token_total_supply);
        put_u64(&mut out, self.fee_basis_points);
        assert(out@ =~= encoding_head(*self));
        put_pubkey(&mut out, &self.withdraw_authority);
        out.push(if self.enable_migrate { 1u8 } else { 0u8 });
        put_u64(&mut out, self.pool_migration_fee);
        put_u64(&mut out, self.creator_fee_basis_points);
        assert(out@ =~= encoding_head(*self) + encoding_middle(*self));
        put_pubkey(&mut out, &self.fee_recipients[0]);
        put_pubkey(&mut out, &self.fee_recipients[1]);
        put_pubkey(&mut out, &self.fee_recipients[2]);
        put_pubkey(&mut out, &self.fee_recipients[3]);
        put_pubkey(&mut out, &self.fee_recipients[4]);
        put_pubkey(&mut out, &self.fee_recipients[5]);
        put_pubkey(&mut out, &self.fee_recipients[6]);
        put_pubkey(&mut out, &self.set_creator_authority);
        assert(out@ =~= self.encoding());
        out
    }
}

/// The bytes of the fields from `initialized` to `fee_basis_points`.
pub open spec fn encoding_head(global: Global) -> Seq<u8> {
    seq![bool_byte(global.initialized)] + global.authority@ + global.fee_recipient@ + u64_le_bytes(
        global.initial_virtual_token_reserves,
    ) + u64_le_bytes(global.initial_virtual_sol_reserves) + u64_le_bytes(
        global.initial_real_token_reserves,
    ) + u64_le_bytes(global.token_total_supply) + u64_le_bytes(global.fee_basis_points)
}

/// The bytes of the fields from `withdraw_authority` to `creator_fee_basis_points`.
pub open spec fn encoding_middle(global: Global) -> Seq<u8> {
    global.withdraw_authority@ + seq![bool_byte(global.enable_migrate)] + u64_le_bytes(
        global.pool_migration_fee,
    ) + u64_le_bytes(global.creator_fee_basis_points)
}

/// The bytes of the fields `fee_recipients` and `set_creator_authority`.
pub open spec fn encoding_tail(global: Global) -> Seq<u8> {
    global.fee_recipients[0]@ + global.fee_recipients[1]@ + global.fee_recipients[2]@
        + global.fee_recipients[3]@ + global.fee_recipients[4]@ + global.fee_recipients[5]@
        + global.fee_recipients[6]@ + global.set_creator_authority@
}

proof fn lemma_encoding_head(global: Global)
    ensures
        encoding_head(global).len() == 105,
        encoding_head(global)[0] == bool_byte(global.initialized),
        encoding_head(global).subrange(1, 33) == global.authority@,
        encoding_head(global).subrange(33, 65) == global.fee_recipient@,
        encoding_head(global).subrange(65, 73) == u64_le_bytes(
            global.initial_virtual_token_reserves,
        ),
        encoding_head(global).subrange(73, 81) == u64_le_bytes(global.initial_virtual_sol_reserves),
        encoding_head(global).subrange(81, 89) == u64_le_bytes(global.initial_real_token_reserves),
        encoding_head(global).subrange(89, 97) == u64_le_bytes(global.token_total_supply),
        encoding_head(global).subrange(97, 105) == u64_le_bytes(global.fee_basis_points),
{
    let head = encoding_head(global);
    assert(head.subrange(1, 33) =~= global.authority@);
    assert(head.subrange(33, 65) =~= global.fee_recipient@);
    assert(head.subrange(65, 73) =~= u64_le_bytes(global.initial_virtual_token_reserves));
    assert(head.subrange(73, 81) =~= u64_le_bytes(global.initial_virtual_sol_reserves));
    assert(head.subrange(81, 89) =~= u64_le_bytes(global.initial_real_token_reserves));
    assert(head.subrange(89, 97) =~= u64_le_bytes(global.token_total_supply));
    assert(head.subrange(97, 105) =~= u64_le_bytes(global.fee_basis_points));
}

proof fn lemma_encoding_middle(global: Global)
    ensures
        encoding_middle(global).len() == 49,
        encoding_middle(global).subrange(0, 32) == global.withdraw_authority@,
        encoding_middle(global)[32] == bool_byte(global.enable_migrate),
        encoding_middle(global).subrange(33, 41) == u64_le_bytes(global.pool_migration_fee),
        encoding_middle(global).subrange(41, 49) == u64_le_bytes(global.creator_fee_basis_points),
{
    let middle = encoding_middle(global);
    assert(middle.subrange(0, 32) =~= global.withdraw_authority@);
    assert(middle.subrange(33, 41) =~= u64_le_bytes(global.pool_migration_fee));
    assert(middle.subrange(41, 49) =~= u64_le_bytes(global.creator_fee_basis_points));
}

proof fn lemma_encoding_tail(global: Global)
    ensures
        encoding_tail(global).len() == 256,
        forall|i: int|
            0 <= i < 7 ==> encoding_tail(global).subrange(32 * i, 32 * i + 32) == (
            #[trigger] global.fee_recipients[i])@,
        encoding_tail(global).subrange(224, 256) == global.set_creator_authority@,
{
    let tail = encoding_tail(global);
    assert(tail.subrange(0, 32) =~= global.fee_recipients[0]@);
    assert(tail.subrange(32, 64) =~= global.fee_recipients[1]@);
    assert(tail.subrange(64, 96) =~= global.fee_recipients[2]@);
    assert(tail.subrange(96, 128) =~= global.fee_recipients[3]@);
    assert(tail.subrange(128, 160) =~= global.fee_recipients[4]@);
    assert(tail.subrange(160, 192) =~= global.fee_recipients[5]@);
    assert(tail.subrange(192, 224) =~= global.fee_recipients[6]@);
    assert(tail.subrange(224, 256) =~= global.set_creator_authority@);
}

/// Reading what `to_vec` wrote gives the configuration back: the bytes match the layout
/// and hold every field.
pub proof fn lemma_global_round_trip(global: Global)
    ensures
        global_layout_ok(global.encoding()),
        global.holds(global.encoding()),
{
    let data = global.encoding();
    let head = encoding_head(global);
    let middle = encoding_middle(global);
    let tail = encoding_tail(global);
    lemma_encoding_head(global);
    lemma_encoding_middle(global);
    lemma_encoding_tail(global);
    lemma_u64_le_round_trip(global.initial_virtual_token_reserves);
    lemma_u64_le_round_trip(global.initial_virtual_sol_reserves);
    lemma_u64_le_round_trip(global.initial_real_token_reserves);
    lemma_u64_le_round_trip(global.token_total_supply);
    lemma_u64_le_round_trip(global.fee_basis_points);
    lemma_u64_le_round_trip(global.pool_migration_fee);
    lemma_u64_le_round_trip(global.creator_fee_basis_points);
    assert(data.len() == 410);
    assert(data[0] == head[0]);
    assert(data[137] == middle[32]);
    assert(data.subrange(1, 33) =~= head.subrange(1, 33));
    assert(data.subrange(33, 65) =~= head.subrange(33, 65));
    assert(data.subrange(65, 73) =~= head.subrange(65, 73));
    assert(data.subrange(73, 81) =~= head.subrange(73, 81));
    assert(data.subrange(81, 89) =~= head.subrange(81, 89));
    assert(data.subrange(89, 97) =~= head.subrange(89, 97));
    assert(data.subrange(97, 105) =~= head.subrange(97, 105));
    assert(data.subrange(105, 137) =~= middle.subrange(0, 32));
    assert(data.subrange(138, 146) =~= middle.subrange(33, 41));
    assert(data.subrange(146, 154) =~= middle.subrange(41, 49));
    assert(data.subrange(378, 410) =~= tail.subrange(224, 256));
    assert forall|i: int| 0 <= i < 7 implies (#[trigger] global.fee_recipients[i])@
        == data.subrange(154 + 32 * i, 186 + 32 * i) by {
        assert(data.subrange(154 + 32 * i, 186 + 32 * i) =~= tail.subrange(32 * i, 32 * i + 32));
    }
}

} // verus!
