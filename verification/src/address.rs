use crate::constants::TOKEN_ACCOUNT_SEED;
use crate::pubkey::{lemma_key_is_its_bytes, Pubkey};
use crate::state::Escrow;
use vstd::bytes::{spec_u64_to_le_bytes, u64_to_le_bytes};
use vstd::prelude::*;
use vstd::slice::slice_to_vec;

verus! {

/// The address that the ledger derives for the program `program_id` from
/// `seeds`, together with the bump seed it settled on; `None` where it finds
/// no address. The derivation itself is the ledger's.
pub uninterp spec fn program_address(seeds: Seq<Seq<u8>>, program_id: Seq<u8>) -> Option<
    (Seq<u8>, u8),
>;

/// The seeds as sequences of bytes.
pub open spec fn seed_bytes(seeds: Seq<Vec<u8>>) -> Seq<Seq<u8>> {
    seeds.map_values(|seed: Vec<u8>| seed@)
}

/// The seeds of a battle's escrow: the escrow tag, player one's key, and the
/// battle id as eight little-endian bytes.
pub open spec fn escrow_seeds(player_one: Pubkey, battle_id: u64) -> Seq<Seq<u8>> {
    seq![TOKEN_ACCOUNT_SEED@, player_one.bytes@, spec_u64_to_le_bytes(battle_id)]
}

/// The seeds with which the escrow signs: its seeds, then its bump seed.
pub open spec fn escrow_signer_seeds(player_one: Pubkey, battle_id: u64, bump: u8) -> Seq<Seq<u8>> {
    escrow_seeds(player_one, battle_id).push(seq![bump])
}

/// Whether `key` with `bump` is what the ledger derives for the escrow of the
/// battle `(player_one, battle_id)` under `program_id`.
pub open spec fn is_escrow_address(
    program_id: Pubkey,
    player_one: Pubkey,
    battle_id: u64,
    key: Pubkey,
    bump: u8,
) -> bool {
    program_address(escrow_seeds(player_one, battle_id), program_id.bytes@) == Some(
        (key.bytes@, bump),
    )
}

/// Calls `Pubkey::try_find_program_address` of `anchor_lang::solana_program`,
/// which searches the bump seeds from 255 downwards for the first with which
/// the seeds hash to an address off the curve, and returns that address and
/// bump seed, or `None`. Trusted: the call depends on its arguments alone, so
/// what it returns is `program_address` of the seeds' bytes and the program
/// id's bytes. Nothing is claimed about which address that is, nor that one
/// is found.
#[verifier::external_body]
fn try_find_program_address(seeds: &Vec<Vec<u8>>, program_id: &Pubkey) -> (found: Option<
    (Pubkey, u8),
>)
    ensures
        program_address(seed_bytes(seeds@), program_id.bytes@) == (match found {
            Some((key, bump)) => Some((key.bytes@, bump)),
            None => None,
        }),
{
    let parts: Vec<&[u8]> = seeds.iter().map(|seed| seed.as_slice()).collect();
    let id = anchor_lang::solana_program::pubkey::Pubkey::new_from_array(program_id.bytes);
    anchor_lang::solana_program::pubkey::Pubkey::try_find_program_address(&parts, &id)
        .map(|(key, bump)| (Pubkey { bytes: key.to_bytes() }, bump))
}

/// The seeds of a battle's escrow, as bytes.
pub fn escrow_seed_bytes(player_one: &Pubkey, battle_id: u64) -> (seeds: Vec<Vec<u8>>)
    ensures
        seed_bytes(seeds@) == escrow_seeds(*player_one, battle_id),
{
    let mut seeds: Vec<Vec<u8>> = Vec::new();
    seeds.push(slice_to_vec(TOKEN_ACCOUNT_SEED.as_slice()));
    seeds.push(slice_to_vec(player_one.bytes.as_slice()));
    seeds.push(u64_to_le_bytes(battle_id));
    assert(seed_bytes(seeds@) =~= escrow_seeds(*player_one, battle_id));
    seeds
}

/// Derives the address of the escrow of the battle `(player_one, battle_id)`
/// and its bump seed. `None` where the ledger derives no address.
pub fn find_escrow_address(program_id: &Pubkey, player_one: &Pubkey, battle_id: u64) -> (found:
    Option<(Pubkey, u8)>)
    ensures
        match found {
            Some((key, bump)) => is_escrow_address(*program_id, *player_one, battle_id, key, bump),
            None => program_address(escrow_seeds(*player_one, battle_id), program_id.bytes@)
                is None,
        },
{
    let seeds = escrow_seed_bytes(player_one, battle_id);
    try_find_program_address(&seeds, program_id)
}

/// Whether `escrow` stands at the address that the ledger derives for the
/// escrow of the battle `(player_one, battle_id)`, with that address's bump
/// seed.
pub fn is_escrow_of(program_id: &Pubkey, player_one: &Pubkey, battle_id: u64, escrow: &Escrow) -> (bound:
    bool)
    ensures
        bound == is_escrow_address(*program_id, *player_one, battle_id, escrow.key, escrow.bump),
{
    let found = find_escrow_address(program_id, player_one, battle_id);
    proof {
        if let Some((key, _)) = found {
            lemma_key_is_its_bytes(key, escrow.key);
        }
    }
    escrow.is_at(&found)
}

} // verus!
