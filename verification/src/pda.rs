//! Program-derived addresses of the Pump, PumpSwap, fees, Mayhem and
//! Metaplex programs.
//!
//! Every derivation can in principle fail (no bump seed gives an address off
//! the curve); the functions here then return `None` instead of panicking.

use vstd::prelude::*;
use crate::constants::{
    MAYHEM_PROGRAM_ID, METAPLEX_TOKEN_METADATA_ID, PUMP_FEES_PROGRAM_ID, PUMP_PROGRAM_ID,
    PUMP_SWAP_PROGRAM_ID, SEED_BONDING_CURVE, SEED_CREATOR_VAULT, SEED_EVENT_AUTHORITY,
    SEED_FEE_CONFIG, SEED_GLOBAL_CONFIG, SEED_GLOBAL_PARAMS, SEED_GLOBAL_VOLUME_ACCUMULATOR,
    SEED_MAYHEM_STATE, SEED_METADATA, SEED_MINT_AUTHORITY, SEED_POOL, SEED_POOL_AUTHORITY,
    SEED_SOL_VAULT, SEED_SWAP_CREATOR_VAULT, SEED_USER_VOLUME_ACCUMULATOR, WSOL_MINT,
};
use crate::outside::{program_address, seeds_view, try_find_program_address};
use crate::pubkey::Pubkey;

verus! {

/// Whether `r` reports the derivation outcome `expected` exactly.
pub open spec fn found_as(r: Option<(Pubkey, u8)>, expected: Option<(Seq<u8>, u8)>) -> bool {
    match r {
        Some(p) => expected == Some((p.0@, p.1)),
        None => expected is None,
    }
}

/// The derived address alone, when the derivation succeeds.
pub open spec fn pda_key(seeds: Seq<Seq<u8>>, program_id: Seq<u8>) -> Option<Seq<u8>> {
    match program_address(seeds, program_id) {
        Some(p) => Some(p.0),
        None => None,
    }
}

/// Derivation of `["bonding-curve", mint]` under the Pump program.
pub open spec fn bonding_curve_seeds(mint: Seq<u8>) -> Seq<Seq<u8>> {
    seq![SEED_BONDING_CURVE@, mint]
}

/// Derivation of `["creator-vault", creator]` under the Pump program.
pub open spec fn creator_vault_seeds(creator: Seq<u8>) -> Seq<Seq<u8>> {
    seq![SEED_CREATOR_VAULT@, creator]
}

/// Derivation of `["pool-authority", base_mint]` under the Pump program.
pub open spec fn pool_authority_seeds(base_mint: Seq<u8>) -> Seq<Seq<u8>> {
    seq![SEED_POOL_AUTHORITY@, base_mint]
}

/// Derivation of `["pool", index, creator, base_mint, quote_mint]` under PumpSwap.
pub open spec fn pump_swap_pool_seeds(index: u16, creator: Seq<u8>, base_mint: Seq<u8>, quote_mint: Seq<u8>) -> Seq<Seq<u8>> {
    seq![SEED_POOL@, seq![(index & 0xff) as u8, ((index >> 8u16) & 0xff) as u8], creator, base_mint, quote_mint]
}

/// Derivation of `["user_volume_accumulator", user]` (under Pump or PumpSwap).
pub open spec fn user_volume_accumulator_seeds(user: Seq<u8>) -> Seq<Seq<u8>> {
    seq![SEED_USER_VOLUME_ACCUMULATOR@, user]
}

/// Derivation of `["creator_vault", coin_creator]` under PumpSwap.
pub open spec fn pump_swap_creator_vault_seeds(coin_creator: Seq<u8>) -> Seq<Seq<u8>> {
    seq![SEED_SWAP_CREATOR_VAULT@, coin_creator]
}

/// Derivation of `["mayhem-state", mint]` under the Mayhem program.
pub open spec fn mayhem_state_seeds(mint: Seq<u8>) -> Seq<Seq<u8>> {
    seq![SEED_MAYHEM_STATE@, mint]
}

/// A single seed.
pub open spec fn single_seed(seed: Seq<u8>) -> Seq<Seq<u8>> {
    seq![seed]
}

/// Derivation of `["fee_config", program]` under the fees program.
pub open spec fn fee_config_seeds(program: Seq<u8>) -> Seq<Seq<u8>> {
    seq![SEED_FEE_CONFIG@, program]
}

/// Derivation of `["metadata", metaplex, mint]` under Metaplex.
pub open spec fn metadata_seeds(mint: Seq<u8>) -> Seq<Seq<u8>> {
    seq![SEED_METADATA@, METAPLEX_TOKEN_METADATA_ID@, mint]
}

fn seed(bytes: &[u8]) -> (v: Vec<u8>)
    ensures
        v@ == bytes@,
{
    vstd::slice::slice_to_vec(bytes)
}

fn find1(s0: &[u8], program: [u8; 32]) -> (r: Option<(Pubkey, u8)>)
    ensures
        found_as(r, program_address(seq![s0@], program@)),
{
    let seeds = vec![seed(s0)];
    assert(seeds_view(seeds@) =~= seq![s0@]);
    try_find_program_address(&seeds, &Pubkey(program))
}

fn find2(s0: &[u8], s1: &[u8], program: [u8; 32]) -> (r: Option<(Pubkey, u8)>)
    ensures
        found_as(r, program_address(seq![s0@, s1@], program@)),
{
    let seeds = vec![seed(s0), seed(s1)];
    assert(seeds_view(seeds@) =~= seq![s0@, s1@]);
    try_find_program_address(&seeds, &Pubkey(program))
}

fn find3(s0: &[u8], s1: &[u8], s2: &[u8], program: [u8; 32]) -> (r: Option<(Pubkey, u8)>)
    ensures
        found_as(r, program_address(seq![s0@, s1@, s2@], program@)),
{
    let seeds = vec![seed(s0), seed(s1), seed(s2)];
    assert(seeds_view(seeds@) =~= seq![s0@, s1@, s2@]);
    try_find_program_address(&seeds, &Pubkey(program))
}

/// The bonding curve account of `mint`.
pub fn bonding_curve_pda(mint: &Pubkey) -> (r: Option<(Pubkey, u8)>)
    ensures
        found_as(r, program_address(bonding_curve_seeds(mint@), PUMP_PROGRAM_ID@)),
        found_as(r, program_address(seq![SEED_BONDING_CURVE@, mint@], PUMP_PROGRAM_ID@)),
{
    find2(&SEED_BONDING_CURVE, &mint.0, PUMP_PROGRAM_ID)
}

/// The Pump mint authority.
pub fn mint_authority_pda() -> (r: Option<(Pubkey, u8)>)
    ensures
        found_as(r, program_address(single_seed(SEED_MINT_AUTHORITY@), PUMP_PROGRAM_ID@)),
        found_as(r, program_address(seq![SEED_MINT_AUTHORITY@], PUMP_PROGRAM_ID@)),
{
    find1(&SEED_MINT_AUTHORITY, PUMP_PROGRAM_ID)
}

/// The creator vault of `creator` on the bonding curve.
pub fn creator_vault_pda(creator: &Pubkey) -> (r: Option<(Pubkey, u8)>)
    ensures
        found_as(r, program_address(creator_vault_seeds(creator@), PUMP_PROGRAM_ID@)),
        found_as(r, program_address(seq![SEED_CREATOR_VAULT@, creator@], PUMP_PROGRAM_ID@)),
{
    find2(&SEED_CREATOR_VAULT, &creator.0, PUMP_PROGRAM_ID)
}

/// The authority that creates the canonical PumpSwap pool of `base_mint`.
pub fn pool_authority_pda(base_mint: &Pubkey) -> (r: Option<(Pubkey, u8)>)
    ensures
        found_as(r, program_address(pool_authority_seeds(base_mint@), PUMP_PROGRAM_ID@)),
        found_as(r, program_address(seq![SEED_POOL_AUTHORITY@, base_mint@], PUMP_PROGRAM_ID@)),
{
    find2(&SEED_POOL_AUTHORITY, &base_mint.0, PUMP_PROGRAM_ID)
}

/// A PumpSwap pool.
pub fn pump_swap_pool_pda(index: u16, creator: &Pubkey, base_mint: &Pubkey, quote_mint: &Pubkey) -> (r: Option<(Pubkey, u8)>)
    ensures
        found_as(r, program_address(pump_swap_pool_seeds(index, creator@, base_mint@, quote_mint@), PUMP_SWAP_PROGRAM_ID@)),
        found_as(r, program_address(seq![SEED_POOL@, seq![(index % 256) as u8, (index / 256) as u8], creator@, base_mint@, quote_mint@], PUMP_SWAP_PROGRAM_ID@)),
{
    let index_bytes: Vec<u8> = vec![(index & 0xff) as u8, ((index >> 8u16) & 0xff) as u8];
    let seeds = vec![seed(&SEED_POOL), index_bytes, seed(&creator.0), seed(&base_mint.0), seed(&quote_mint.0)];
    assert(seeds_view(seeds@) =~= pump_swap_pool_seeds(index, creator@, base_mint@, quote_mint@));
    assert((index & 0xff) as u8 == (index % 256) as u8 && ((index >> 8u16) & 0xff) as u8 == (index
        / 256) as u8) by (bit_vector);
    assert(pump_swap_pool_seeds(index, creator@, base_mint@, quote_mint@) =~= seq![
        SEED_POOL@,
        seq![(index % 256) as u8, (index / 256) as u8],
        creator@,
        base_mint@,
        quote_mint@,
    ]);
    try_find_program_address(&seeds, &Pubkey(PUMP_SWAP_PROGRAM_ID))
}

/// The PumpSwap global config.
pub fn pump_swap_global_config_pda() -> (r: Option<(Pubkey, u8)>)
    ensures
        found_as(r, program_address(single_seed(SEED_GLOBAL_CONFIG@), PUMP_SWAP_PROGRAM_ID@)),
        found_as(r, program_address(seq![SEED_GLOBAL_CONFIG@], PUMP_SWAP_PROGRAM_ID@)),
{
    find1(&SEED_GLOBAL_CONFIG, PUMP_SWAP_PROGRAM_ID)
}

/// The PumpSwap creator vault authority of `coin_creator`.
pub fn pump_swap_creator_vault_pda(coin_creator: &Pubkey) -> (r: Option<(Pubkey, u8)>)
    ensures
        found_as(r, program_address(pump_swap_creator_vault_seeds(coin_creator@), PUMP_SWAP_PROGRAM_ID@)),
        found_as(r, program_address(seq![SEED_SWAP_CREATOR_VAULT@, coin_creator@], PUMP_SWAP_PROGRAM_ID@)),
{
    find2(&SEED_SWAP_CREATOR_VAULT, &coin_creator.0, PUMP_SWAP_PROGRAM_ID)
}

/// The volume accumulator of `user` on the bonding curve.
pub fn user_volume_accumulator_pda(user: &Pubkey) -> (r: Option<(Pubkey, u8)>)
    ensures
        found_as(r, program_address(user_volume_accumulator_seeds(user@), PUMP_PROGRAM_ID@)),
        found_as(r, program_address(seq![SEED_USER_VOLUME_ACCUMULATOR@, user@], PUMP_PROGRAM_ID@)),
{
    find2(&SEED_USER_VOLUME_ACCUMULATOR, &user.0, PUMP_PROGRAM_ID)
}

/// The volume accumulator of `user` on PumpSwap.
pub fn pump_swap_user_volume_accumulator_pda(user: &Pubkey) -> (r: Option<(Pubkey, u8)>)
    ensures
        found_as(r, program_address(user_volume_accumulator_seeds(user@), PUMP_SWAP_PROGRAM_ID@)),
        found_as(r, program_address(seq![SEED_USER_VOLUME_ACCUMULATOR@, user@], PUMP_SWAP_PROGRAM_ID@)),
{
    find2(&SEED_USER_VOLUME_ACCUMULATOR, &user.0, PUMP_SWAP_PROGRAM_ID)
}

/// The Mayhem global params (derived under the Mayhem program).
pub fn global_params_pda() -> (r: Option<(Pubkey, u8)>)
    ensures
        found_as(r, program_address(single_seed(SEED_GLOBAL_PARAMS@), MAYHEM_PROGRAM_ID@)),
        found_as(r, program_address(seq![SEED_GLOBAL_PARAMS@], MAYHEM_PROGRAM_ID@)),
{
    find1(&SEED_GLOBAL_PARAMS, MAYHEM_PROGRAM_ID)
}

/// The Mayhem SOL vault (derived under the Mayhem program).
pub fn sol_vault_pda() -> (r: Option<(Pubkey, u8)>)
    ensures
        found_as(r, program_address(single_seed(SEED_SOL_VAULT@), MAYHEM_PROGRAM_ID@)),
        found_as(r, program_address(seq![SEED_SOL_VAULT@], MAYHEM_PROGRAM_ID@)),
{
    find1(&SEED_SOL_VAULT, MAYHEM_PROGRAM_ID)
}

/// The Mayhem state of `mint` (derived under the Mayhem program).
pub fn mayhem_state_pda(mint: &Pubkey) -> (r: Option<(Pubkey, u8)>)
    ensures
        found_as(r, program_address(mayhem_state_seeds(mint@), MAYHEM_PROGRAM_ID@)),
        found_as(r, program_address(seq![SEED_MAYHEM_STATE@, mint@], MAYHEM_PROGRAM_ID@)),
{
    find2(&SEED_MAYHEM_STATE, &mint.0, MAYHEM_PROGRAM_ID)
}

/// The PumpSwap event authority, `["__event_authority"]` under PumpSwap.
pub fn pump_swap_event_authority() -> (r: Option<(Pubkey, u8)>)
    ensures
        found_as(r, program_address(single_seed(SEED_EVENT_AUTHORITY@), PUMP_SWAP_PROGRAM_ID@)),
        found_as(r, program_address(seq![SEED_EVENT_AUTHORITY@], PUMP_SWAP_PROGRAM_ID@)),
{
    find1(&SEED_EVENT_AUTHORITY, PUMP_SWAP_PROGRAM_ID)
}

/// The Pump fee config, `["fee_config", PUMP_PROGRAM_ID]` under the fees program.
pub fn pump_fee_config() -> (r: Option<(Pubkey, u8)>)
    ensures
        found_as(r, program_address(fee_config_seeds(PUMP_PROGRAM_ID@), PUMP_FEES_PROGRAM_ID@)),
        found_as(r, program_address(seq![SEED_FEE_CONFIG@, PUMP_PROGRAM_ID@], PUMP_FEES_PROGRAM_ID@)),
{
    find2(&SEED_FEE_CONFIG, &PUMP_PROGRAM_ID, PUMP_FEES_PROGRAM_ID)
}

/// The Pump global volume accumulator, `["global_volume_accumulator"]` under Pump.
pub fn pump_global_volume_accumulator() -> (r: Option<(Pubkey, u8)>)
    ensures
        found_as(r, program_address(single_seed(SEED_GLOBAL_VOLUME_ACCUMULATOR@), PUMP_PROGRAM_ID@)),
        found_as(r, program_address(seq![SEED_GLOBAL_VOLUME_ACCUMULATOR@], PUMP_PROGRAM_ID@)),
{
    find1(&SEED_GLOBAL_VOLUME_ACCUMULATOR, PUMP_PROGRAM_ID)
}

/// The PumpSwap fee config, `["fee_config", PUMP_SWAP_PROGRAM_ID]` under the fees program.
pub fn pump_swap_fee_config() -> (r: Option<(Pubkey, u8)>)
    ensures
        found_as(r, program_address(fee_config_seeds(PUMP_SWAP_PROGRAM_ID@), PUMP_FEES_PROGRAM_ID@)),
        found_as(r, program_address(seq![SEED_FEE_CONFIG@, PUMP_SWAP_PROGRAM_ID@], PUMP_FEES_PROGRAM_ID@)),
{
    find2(&SEED_FEE_CONFIG, &PUMP_SWAP_PROGRAM_ID, PUMP_FEES_PROGRAM_ID)
}

/// The PumpSwap global volume accumulator, `["global_volume_accumulator"]` under PumpSwap.
pub fn pump_swap_global_volume_accumulator() -> (r: Option<(Pubkey, u8)>)
    ensures
        found_as(r, program_address(single_seed(SEED_GLOBAL_VOLUME_ACCUMULATOR@), PUMP_SWAP_PROGRAM_ID@)),
        found_as(r, program_address(seq![SEED_GLOBAL_VOLUME_ACCUMULATOR@], PUMP_SWAP_PROGRAM_ID@)),
{
    find1(&SEED_GLOBAL_VOLUME_ACCUMULATOR, PUMP_SWAP_PROGRAM_ID)
}

/// The Metaplex metadata account of `mint`.
pub fn metaplex_metadata_pda(mint: &Pubkey) -> (r: Option<(Pubkey, u8)>)
    ensures
        found_as(r, program_address(metadata_seeds(mint@), METAPLEX_TOKEN_METADATA_ID@)),
        found_as(r, program_address(seq![SEED_METADATA@, METAPLEX_TOKEN_METADATA_ID@, mint@], METAPLEX_TOKEN_METADATA_ID@)),
{
    find3(&SEED_METADATA, &METAPLEX_TOKEN_METADATA_ID, &mint.0, METAPLEX_TOKEN_METADATA_ID)
}

/// Address of the canonical PumpSwap pool of a graduated token: pool index 0,
/// created by the token's pool authority, paired with wrapped SOL.
pub open spec fn canonical_pool_key(mint: Seq<u8>) -> Option<Seq<u8>> {
    match pda_key(pool_authority_seeds(mint), PUMP_PROGRAM_ID@) {
        Some(authority) => pda_key(pump_swap_pool_seeds(0, authority, mint, WSOL_MINT@), PUMP_SWAP_PROGRAM_ID@),
        None => None,
    }
}

/// The canonical pool of a mint is the PumpSwap address of the seeds
/// `"pool"`, index 0 as two little-endian bytes, the mint's pool authority
/// (`"pool-authority"` and the mint under Pump), the mint as base and
/// wrapped SOL as quote, in that order.
pub proof fn law_canonical_pool_seeds(mint: Seq<u8>)
    ensures
        canonical_pool_key(mint) == (match pda_key(seq![SEED_POOL_AUTHORITY@, mint], PUMP_PROGRAM_ID@) {
            Some(authority) => pda_key(
                seq![SEED_POOL@, seq![0u8, 0u8], authority, mint, WSOL_MINT@],
                PUMP_SWAP_PROGRAM_ID@,
            ),
            None => None,
        }),
{
    assert((0u16 & 0xff) as u8 == 0u8 && ((0u16 >> 8u16) & 0xff) as u8 == 0u8) by (bit_vector);
    match pda_key(seq![SEED_POOL_AUTHORITY@, mint], PUMP_PROGRAM_ID@) {
        Some(authority) => {
            assert(pool_authority_seeds(mint) =~= seq![SEED_POOL_AUTHORITY@, mint]);
            assert(pump_swap_pool_seeds(0, authority, mint, WSOL_MINT@) =~= seq![
                SEED_POOL@,
                seq![0u8, 0u8],
                authority,
                mint,
                WSOL_MINT@,
            ]);
        },
        None => {
            assert(pool_authority_seeds(mint) =~= seq![SEED_POOL_AUTHORITY@, mint]);
        },
    }
}

/// The canonical PumpSwap pool of `mint` (index 0, pool authority as
/// creator, quoted in wrapped SOL).
pub fn canonical_pool_address(mint: &Pubkey) -> (r: Option<Pubkey>)
    ensures
        match r {
            Some(k) => canonical_pool_key(mint@) == Some(k@),
            None => canonical_pool_key(mint@) is None,
        },
        ({
            let expected = match pda_key(seq![SEED_POOL_AUTHORITY@, mint@], PUMP_PROGRAM_ID@) {
                Some(authority) => pda_key(
                    seq![SEED_POOL@, seq![0u8, 0u8], authority, mint@, WSOL_MINT@],
                    PUMP_SWAP_PROGRAM_ID@,
                ),
                None => None,
            };
            match r {
                Some(k) => expected == Some(k@),
                None => expected is None,
            }
        }),
{
    let authority = match pool_authority_pda(mint) {
        Some(p) => p.0,
        None => return None,
    };
    proof {
        law_canonical_pool_seeds(mint@);
    }
    match pump_swap_pool_pda(0, &authority, mint, &Pubkey(WSOL_MINT)) {
        Some(p) => Some(p.0),
        None => None,
    }
}

} // verus!
