//! The program-derived addresses of the accounts that the program works on.
//!
//! An address is derived from a list of byte-string seeds and the program that owns
//! the account. Each class of account has a seed prefix of its own.

use vstd::prelude::*;
use crate::associated_token::{associated_token_address, get_associated_token_address};
use crate::constants::{MPL_TOKEN_METADATA, TOKEN_PROGRAM, ASSOCIATED_TOKEN_PROGRAM};
use crate::pubkey::{optional_view, Pubkey};
use crate::PUMP_DOT_FUN_PROGRAM_ID;

verus! {

/// `bonding-curve`
pub const BONDING_CURVE_SEED: [u8; 13] = [
    98, 111, 110, 100, 105, 110, 103, 45, 99, 117, 114, 118, 101,
];

/// `metadata`
pub const METADATA_SEED: [u8; 8] = [109, 101, 116, 97, 100, 97, 116, 97];

/// `global`
pub const GLOBAL_SEED: [u8; 6] = [103, 108, 111, 98, 97, 108];

/// `mint-authority`
pub const MINT_AUTHORITY_SEED: [u8; 14] = [
    109, 105, 110, 116, 45, 97, 117, 116, 104, 111, 114, 105, 116, 121,
];

/// `creator-vault`
pub const CREATOR_VAULT_SEED: [u8; 13] = [
    99, 114, 101, 97, 116, 111, 114, 45, 118, 97, 117, 108, 116,
];

/// The address that the runtime derives for a list of seeds and an owning program,
/// or `None` where it derives none.
pub uninterp spec fn program_address(seeds: Seq<Seq<u8>>, program_id: Seq<u8>) -> Option<Seq<u8>>;

/// Calls `Pubkey::try_find_program_address` of `solana_sdk`. Off chain that function
/// hashes the seeds, a bump seed, the program id and a marker, trying the bump seeds
/// from 255 downwards until the hash is no curve point. It returns `None` where there
/// are too many seeds, one is too long, or no bump seed serves. The contract claims
/// only that the outcome is a function of the seeds and the program id.
#[verifier::external_body]
pub(crate) fn find_program_address(seeds: &[&[u8]], program_id: &Pubkey) -> (r: Option<Pubkey>)
    ensures
        optional_view(r) == program_address(seeds.deep_view(), program_id@),
{
    let owner = solana_sdk::pubkey::Pubkey::new_from_array(program_id.bytes);
    match solana_sdk::pubkey::Pubkey::try_find_program_address(seeds, &owner) {
        Some((address, _)) => Some(Pubkey { bytes: address.to_bytes() }),
        None => None,
    }
}

/// The seeds of a mint's bonding curve.
pub open spec fn bonding_curve_seeds(mint: Seq<u8>) -> Seq<Seq<u8>> {
    seq![BONDING_CURVE_SEED@, mint]
}

/// The seeds of the mint authority.
pub open spec fn mint_authority_seeds() -> Seq<Seq<u8>> {
    seq![MINT_AUTHORITY_SEED@]
}

/// The seeds of a mint's metadata account.
pub open spec fn metadata_seeds(mint: Seq<u8>) -> Seq<Seq<u8>> {
    seq![METADATA_SEED@, MPL_TOKEN_METADATA@, mint]
}

/// The seeds of the global configuration account.
pub open spec fn global_seeds() -> Seq<Seq<u8>> {
    seq![GLOBAL_SEED@]
}

/// The seeds of a creator's vault.
pub open spec fn creator_vault_seeds(creator: Seq<u8>) -> Seq<Seq<u8>> {
    seq![CREATOR_VAULT_SEED@, creator]
}

/// The address of a mint's bonding curve, owned by the program.
pub open spec fn bonding_curve_address(mint: Seq<u8>) -> Option<Seq<u8>> {
    program_address(bonding_curve_seeds(mint), PUMP_DOT_FUN_PROGRAM_ID@)
}

/// The address of the mint authority, owned by the program.
pub open spec fn mint_authority_address() -> Option<Seq<u8>> {
    program_address(mint_authority_seeds(), PUMP_DOT_FUN_PROGRAM_ID@)
}

/// The address of the token account that a mint's bonding curve holds of that mint.
pub open spec fn associated_bonding_curve_address(mint: Seq<u8>) -> Option<Seq<u8>> {
    match bonding_curve_address(mint) {
        Some(bonding_curve) => associated_token_address(bonding_curve, TOKEN_PROGRAM@, mint),
        None => None,
    }
}

/// The address of a mint's metadata account, owned by the metadata program.
pub open spec fn metadata_address(mint: Seq<u8>) -> Option<Seq<u8>> {
    program_address(metadata_seeds(mint), MPL_TOKEN_METADATA@)
}

/// The address of the global configuration account, owned by the program.
pub open spec fn global_address() -> Option<Seq<u8>> {
    program_address(global_seeds(), PUMP_DOT_FUN_PROGRAM_ID@)
}

/// The address of a creator's vault, owned by the program.
pub open spec fn creator_vault_address(creator: Seq<u8>) -> Option<Seq<u8>> {
    program_address(creator_vault_seeds(creator), PUMP_DOT_FUN_PROGRAM_ID@)
}

/// Whether every address that a trade of this mint by this user names can be derived:
/// the bonding curve with its token account, the global configuration and the user's
/// token account.
pub open spec fn trade_addresses_exist(mint: Seq<u8>, user: Seq<u8>) -> bool {
    &&& associated_bonding_curve_address(mint).is_some()
    &&& global_address().is_some()
    &&& associated_token_address(user, TOKEN_PROGRAM@, mint).is_some()
}

fn find_bonding_curve(mint: &Pubkey) -> (r: Option<Pubkey>)
    ensures
        optional_view(r) == bonding_curve_address(mint@),
{
    let seeds: [&[u8]; 2] = [&BONDING_CURVE_SEED, &mint.bytes];
    assert(seeds.deep_view() =~~= bonding_curve_seeds(mint@));
    find_program_address(&seeds, &Pubkey::new_from_array(PUMP_DOT_FUN_PROGRAM_ID))
}

fn find_mint_authority() -> (r: Option<Pubkey>)
    ensures
        optional_view(r) == mint_authority_address(),
{
    let seeds: [&[u8]; 1] = [&MINT_AUTHORITY_SEED];
    assert(seeds.deep_view() =~~= mint_authority_seeds());
    find_program_address(&seeds, &Pubkey::new_from_array(PUMP_DOT_FUN_PROGRAM_ID))
}

fn find_metadata(mint: &Pubkey) -> (r: Option<Pubkey>)
    ensures
        optional_view(r) == metadata_address(mint@),
{
    let seeds: [&[u8]; 3] = [&METADATA_SEED, &MPL_TOKEN_METADATA, &mint.bytes];
    assert(seeds.deep_view() =~~= metadata_seeds(mint@));
    find_program_address(&seeds, &Pubkey::new_from_array(MPL_TOKEN_METADATA))
}

fn find_global() -> (r: Option<Pubkey>)
    ensures
        optional_view(r) == global_address(),
{
    let seeds: [&[u8]; 1] = [&GLOBAL_SEED];
    assert(seeds.deep_view() =~~= global_seeds());
    find_program_address(&seeds, &Pubkey::new_from_array(PUMP_DOT_FUN_PROGRAM_ID))
}

fn find_creator_vault(creator: &Pubkey) -> (r: Option<Pubkey>)
    ensures
        optional_view(r) == creator_vault_address(creator@),
{
    let seeds: [&[u8]; 2] = [&CREATOR_VAULT_SEED, &creator.bytes];
    assert(seeds.deep_view() =~~= creator_vault_seeds(creator@));
    find_program_address(&seeds, &Pubkey::new_from_array(PUMP_DOT_FUN_PROGRAM_ID))
}

/// Whether a wallet has an associated token account address for a mint under a token
/// program.
pub(crate) fn has_associated_token_address(
    wallet: &Pubkey,
    token_program: &Pubkey,
    mint: &Pubkey,
) -> (r: bool)
    ensures
        r == associated_token_address(wallet@, token_program@, mint@).is_some(),
{
    let seeds: [&[u8]; 3] = [&wallet.bytes, &token_program.bytes, &mint.bytes];
    assert(seeds.deep_view() =~~= seq![wallet@, token_program@, mint@]);
    find_program_address(&seeds, &Pubkey::new_from_array(ASSOCIATED_TOKEN_PROGRAM)).is_some()
}

/// The address of a mint's bonding curve.
pub fn get_bonding_curve_pda(mint: &Pubkey) -> (r: Pubkey)
    requires
        bonding_curve_address(mint@).is_some(),
    ensures
        Some(r@) == bonding_curve_address(mint@),
{
    find_bonding_curve(mint).unwrap()
}

/// The address of a mint's bonding curve, or `None` where none can be derived.
pub fn try_get_bonding_curve_pda(mint: &Pubkey) -> (r: Option<Pubkey>)
    ensures
        optional_view(r) == bonding_curve_address(mint@),
{
    match find_bonding_curve(mint) {
        Some(_) => Some(get_bonding_curve_pda(mint)),
        None => None,
    }
}

/// The address of the mint authority.
pub fn get_mint_authority_pda() -> (r: Pubkey)
    requires
        mint_authority_address().is_some(),
    ensures
        Some(r@) == mint_authority_address(),
{
    find_mint_authority().unwrap()
}

/// The address of the mint authority, or `None` where none can be derived.
pub fn try_get_mint_authority_pda() -> (r: Option<Pubkey>)
    ensures
        optional_view(r) == mint_authority_address(),
{
    match find_mint_authority() {
        Some(_) => Some(get_mint_authority_pda()),
        None => None,
    }
}

/// The address of the token account that a mint's bonding curve holds of that mint.
pub fn get_associated_bonding_curve(mint: &Pubkey) -> (r: Pubkey)
    requires
        associated_bonding_curve_address(mint@).is_some(),
    ensures
        Some(r@) == associated_bonding_curve_address(mint@),
{
    let bonding_curve = get_bonding_curve_pda(mint);
    get_associated_token_address(&bonding_curve, mint)
}

/// The address of the token account that a mint's bonding curve holds of that mint, or
/// `None` where none can be derived.
pub fn try_get_associated_bonding_curve(mint: &Pubkey) -> (r: Option<Pubkey>)
    ensures
        optional_view(r) == associated_bonding_curve_address(mint@),
{
    match find_bonding_curve(mint) {
        Some(bonding_curve) => {
            let token_program = Pubkey::new_from_array(TOKEN_PROGRAM);
            if has_associated_token_address(&bonding_curve, &token_program, mint) {
                Some(get_associated_bonding_curve(mint))
            } else {
                None
            }
        },
        None => None,
    }
}

/// The address of a mint's metadata account.
pub fn get_metadata_pda(mint: &Pubkey) -> (r: Pubkey)
    requires
        metadata_address(mint@).is_some(),
    ensures
        Some(r@) == metadata_address(mint@),
{
    find_metadata(mint).unwrap()
}

/// The address of a mint's metadata account, or `None` where none can be derived.
pub fn try_get_metadata_pda(mint: &Pubkey) -> (r: Option<Pubkey>)
    ensures
        optional_view(r) == metadata_address(mint@),
{
    match find_metadata(mint) {
        Some(_) => Some(get_metadata_pda(mint)),
        None => None,
    }
}

/// The address of the global configuration account.
pub fn get_global_pda() -> (r: Pubkey)
    requires
        global_address().is_some(),
    ensures
        Some(r@) == global_address(),
{
    find_global().unwrap()
}

/// The address of the global configuration account, or `None` where none can be derived.
pub fn try_get_global_pda() -> (r: Option<Pubkey>)
    ensures
        optional_view(r) == global_address(),
{
    match find_global() {
        Some(_) => Some(get_global_pda()),
        None => None,
    }
}

/// The address of a creator's vault.
pub fn get_creator_vault_pda(creator: &Pubkey) -> (r: Pubkey)
    requires
        creator_vault_address(creator@).is_some(),
    ensures
        Some(r@) == creator_vault_address(creator@),
{
    find_creator_vault(creator).unwrap()
}

/// The address of a creator's vault, or `None` where none can be derived.
pub fn try_get_creator_vault_pda(creator: &Pubkey) -> (r: Option<Pubkey>)
    ensures
        optional_view(r) == creator_vault_address(creator@),
{
    match find_creator_vault(creator) {
        Some(_) => Some(get_creator_vault_pda(creator)),
        None => None,
    }
}

/// The bytes of a list of seeds one after another, which is what a derivation hashes
/// of them.
pub open spec fn seed_material(seeds: Seq<Seq<u8>>) -> Seq<u8>
    decreases seeds.len(),
{
    if seeds.len() == 0 {
        Seq::empty()
    } else {
        seed_material(seeds.drop_last()) + seeds.last()
    }
}

/// No two classes of address hash the same seed bytes under the same program, whatever
/// the mint and the creator: the classes that the program owns differ in the first byte
/// of their seeds, and the metadata account belongs to another program.
pub proof fn lemma_seed_classes_distinct(mint: Seq<u8>, creator: Seq<u8>)
    ensures
        seed_material(bonding_curve_seeds(mint)) != seed_material(global_seeds()),
        seed_material(bonding_curve_seeds(mint)) != seed_material(mint_authority_seeds()),
        seed_material(bonding_curve_seeds(mint)) != seed_material(creator_vault_seeds(creator)),
        seed_material(global_seeds()) != seed_material(mint_authority_seeds()),
        seed_material(global_seeds()) != seed_material(creator_vault_seeds(creator)),
        seed_material(mint_authority_seeds()) != seed_material(creator_vault_seeds(creator)),
        seed_material(metadata_seeds(mint)) != seed_material(bonding_curve_seeds(mint)),
        seed_material(metadata_seeds(mint)) != seed_material(global_seeds()),
        seed_material(metadata_seeds(mint)) != seed_material(mint_authority_seeds()),
        seed_material(metadata_seeds(mint)) != seed_material(creator_vault_seeds(creator)),
        MPL_TOKEN_METADATA@ != PUMP_DOT_FUN_PROGRAM_ID@,
{
    reveal_with_fuel(seed_material, 4);
    let curve = bonding_curve_seeds(mint);
    let global = global_seeds();
    let authority = mint_authority_seeds();
    let vault = creator_vault_seeds(creator);
    let metadata = metadata_seeds(mint);
    assert(curve.drop_last() =~= seq![BONDING_CURVE_SEED@]);
    assert(curve.drop_last().drop_last() =~= Seq::<Seq<u8>>::empty());
    assert(vault.drop_last() =~= seq![CREATOR_VAULT_SEED@]);
    assert(vault.drop_last().drop_last() =~= Seq::<Seq<u8>>::empty());
    assert(global.drop_last() =~= Seq::<Seq<u8>>::empty());
    assert(authority.drop_last() =~= Seq::<Seq<u8>>::empty());
    assert(metadata.drop_last() =~= seq![METADATA_SEED@, MPL_TOKEN_METADATA@]);
    assert(metadata.drop_last().drop_last() =~= seq![METADATA_SEED@]);
    assert(metadata.drop_last().drop_last().drop_last() =~= Seq::<Seq<u8>>::empty());
    assert(seed_material(curve)[0] == 98);
    assert(seed_material(vault)[0] == 99);
    assert(seed_material(global)[0] == 103);
    assert(seed_material(authority)[0] == 109);
    assert(seed_material(authority)[1] == 105);
    assert(seed_material(metadata)[0] == 109);
    assert(seed_material(metadata)[1] == 101);
    assert(MPL_TOKEN_METADATA@[0] == 11);
    assert(PUMP_DOT_FUN_PROGRAM_ID@[0] == 1);
}

/// Tests whether every address of a trade can be derived.
pub(crate) fn has_trade_addresses(mint: &Pubkey, user: &Pubkey) -> (r: bool)
    ensures
        r == trade_addresses_exist(mint@, user@),
{
    if try_get_associated_bonding_curve(mint).is_none() {
        return false;
    }
    if try_get_global_pda().is_none() {
        return false;
    }
    has_associated_token_address(user, &Pubkey::new_from_array(TOKEN_PROGRAM), mint)
}

} // verus!
