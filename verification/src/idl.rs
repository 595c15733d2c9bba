//! The account lists that the Pump and PumpSwap programs expect, position by
//! position, stated with the program ids and the address derivations
//! themselves, and proved of the instructions this library builds.

use vstd::prelude::*;
use crate::constants::{
    ASSOCIATED_TOKEN_PROGRAM_ID, EVENT_AUTHORITY, MAYHEM_PROGRAM_ID, METAPLEX_TOKEN_METADATA_ID,
    PUMP_FEES_PROGRAM_ID, PUMP_GLOBAL, PUMP_PROGRAM_ID, PUMP_SWAP_PROGRAM_ID, RENT_SYSVAR_ID,
    SEED_BONDING_CURVE, SEED_CREATOR_VAULT, SEED_EVENT_AUTHORITY, SEED_FEE_CONFIG,
    SEED_GLOBAL_CONFIG, SEED_GLOBAL_PARAMS, SEED_GLOBAL_VOLUME_ACCUMULATOR, SEED_MAYHEM_STATE,
    SEED_METADATA, SEED_MINT_AUTHORITY, SEED_SOL_VAULT, SEED_SWAP_CREATOR_VAULT,
    SEED_USER_VOLUME_ACCUMULATOR, SPL_TOKEN_PROGRAM_ID, SYSTEM_PROGRAM_ID, TOKEN_2022_PROGRAM_ID,
};
use crate::instruction::MetaView;
use crate::instructions::{
    buy_ix_view, create_ix_view, create_v2_ix_view, sell_ix_view, swap_buy_ix_view,
    swap_sell_ix_view,
};
use crate::pda::pda_key;
use crate::pump_swap::SwapPool;

verus! {

/// Account `i` of `a` is `key`, with the given signer and writable flags.
pub open spec fn account_is(a: Seq<MetaView>, i: int, key: Seq<u8>, signer: bool, writable: bool) -> bool {
    &&& 0 <= i < a.len()
    &&& a[i].key == key
    &&& a[i].signer == signer
    &&& a[i].writable == writable
}

/// Account `i` of `a` is the address derived from `seeds` under `program`.
pub open spec fn account_derived(
    a: Seq<MetaView>,
    i: int,
    seeds: Seq<Seq<u8>>,
    program: Seq<u8>,
    signer: bool,
    writable: bool,
) -> bool {
    pda_key(seeds, program) matches Some(k) && account_is(a, i, k, signer, writable)
}

/// The Pump `buy` accounts: global, fee recipient, mint, bonding curve, its
/// token account, the user's token account, the user (signer), the System
/// program, the token program, the creator vault, the event authority, the
/// Pump program, the global and user volume accumulators, the fee config
/// and the fees program.
pub open spec fn buy_accounts_in_order(
    a: Seq<MetaView>,
    user: Seq<u8>,
    mint: Seq<u8>,
    creator: Seq<u8>,
    token_program: Seq<u8>,
    fee_recipient: Seq<u8>,
) -> bool {
    &&& a.len() == 16
    &&& account_is(a, 0, PUMP_GLOBAL@, false, false)
    &&& account_is(a, 1, fee_recipient, false, true)
    &&& account_is(a, 2, mint, false, false)
    &&& pda_key(seq![SEED_BONDING_CURVE@, mint], PUMP_PROGRAM_ID@) matches Some(bc) && account_is(
        a,
        3,
        bc,
        false,
        true,
    ) && account_derived(a, 4, seq![bc, token_program, mint], ASSOCIATED_TOKEN_PROGRAM_ID@, false, true)
    &&& account_derived(a, 5, seq![user, token_program, mint], ASSOCIATED_TOKEN_PROGRAM_ID@, false, true)
    &&& account_is(a, 6, user, true, true)
    &&& account_is(a, 7, SYSTEM_PROGRAM_ID@, false, false)
    &&& account_is(a, 8, token_program, false, false)
    &&& account_derived(a, 9, seq![SEED_CREATOR_VAULT@, creator], PUMP_PROGRAM_ID@, false, true)
    &&& account_is(a, 10, EVENT_AUTHORITY@, false, false)
    &&& account_is(a, 11, PUMP_PROGRAM_ID@, false, false)
    &&& account_derived(a, 12, seq![SEED_GLOBAL_VOLUME_ACCUMULATOR@], PUMP_PROGRAM_ID@, false, false)
    &&& account_derived(a, 13, seq![SEED_USER_VOLUME_ACCUMULATOR@, user], PUMP_PROGRAM_ID@, false, true)
    &&& account_derived(a, 14, seq![SEED_FEE_CONFIG@, PUMP_PROGRAM_ID@], PUMP_FEES_PROGRAM_ID@, false, false)
    &&& account_is(a, 15, PUMP_FEES_PROGRAM_ID@, false, false)
}

/// The Pump `sell` accounts: as for `buy` up to the System program, then
/// the creator vault before the token program, and no volume accumulators.
pub open spec fn sell_accounts_in_order(
    a: Seq<MetaView>,
    user: Seq<u8>,
    mint: Seq<u8>,
    creator: Seq<u8>,
    token_program: Seq<u8>,
    fee_recipient: Seq<u8>,
) -> bool {
    &&& a.len() == 14
    &&& account_is(a, 0, PUMP_GLOBAL@, false, false)
    &&& account_is(a, 1, fee_recipient, false, true)
    &&& account_is(a, 2, mint, false, false)
    &&& pda_key(seq![SEED_BONDING_CURVE@, mint], PUMP_PROGRAM_ID@) matches Some(bc) && account_is(
        a,
        3,
        bc,
        false,
        true,
    ) && account_derived(a, 4, seq![bc, token_program, mint], ASSOCIATED_TOKEN_PROGRAM_ID@, false, true)
    &&& account_derived(a, 5, seq![user, token_program, mint], ASSOCIATED_TOKEN_PROGRAM_ID@, false, true)
    &&& account_is(a, 6, user, true, true)
    &&& account_is(a, 7, SYSTEM_PROGRAM_ID@, false, false)
    &&& account_derived(a, 8, seq![SEED_CREATOR_VAULT@, creator], PUMP_PROGRAM_ID@, false, true)
    &&& account_is(a, 9, token_program, false, false)
    &&& account_is(a, 10, EVENT_AUTHORITY@, false, false)
    &&& account_is(a, 11, PUMP_PROGRAM_ID@, false, false)
    &&& account_derived(a, 12, seq![SEED_FEE_CONFIG@, PUMP_PROGRAM_ID@], PUMP_FEES_PROGRAM_ID@, false, false)
    &&& account_is(a, 13, PUMP_FEES_PROGRAM_ID@, false, false)
}

/// The legacy Pump `create` accounts: mint (signer), mint authority, bonding
/// curve, its SPL Token account, global, the Metaplex program, the metadata
/// account, the user (signer), System, SPL Token, the associated token
/// program, rent, the event authority and the Pump program.
pub open spec fn create_accounts_in_order(a: Seq<MetaView>, user: Seq<u8>, mint: Seq<u8>) -> bool {
    &&& a.len() == 14
    &&& account_is(a, 0, mint, true, true)
    &&& account_derived(a, 1, seq![SEED_MINT_AUTHORITY@], PUMP_PROGRAM_ID@, false, false)
    &&& pda_key(seq![SEED_BONDING_CURVE@, mint], PUMP_PROGRAM_ID@) matches Some(bc) && account_is(
        a,
        2,
        bc,
        false,
        true,
    ) && account_derived(a, 3, seq![bc, SPL_TOKEN_PROGRAM_ID@, mint], ASSOCIATED_TOKEN_PROGRAM_ID@, false, true)
    &&& account_is(a, 4, PUMP_GLOBAL@, false, false)
    &&& account_is(a, 5, METAPLEX_TOKEN_METADATA_ID@, false, false)
    &&& account_derived(
        a,
        6,
        seq![SEED_METADATA@, METAPLEX_TOKEN_METADATA_ID@, mint],
        METAPLEX_TOKEN_METADATA_ID@,
        false,
        true,
    )
    &&& account_is(a, 7, user, true, true)
    &&& account_is(a, 8, SYSTEM_PROGRAM_ID@, false, false)
    &&& account_is(a, 9, SPL_TOKEN_PROGRAM_ID@, false, false)
    &&& account_is(a, 10, ASSOCIATED_TOKEN_PROGRAM_ID@, false, false)
    &&& account_is(a, 11, RENT_SYSVAR_ID@, false, false)
    &&& account_is(a, 12, EVENT_AUTHORITY@, false, false)
    &&& account_is(a, 13, PUMP_PROGRAM_ID@, false, false)
}

/// The Pump `create_v2` accounts: mint (signer), mint authority, bonding
/// curve, its Token-2022 account, global, the user (signer), System,
/// Token-2022, the associated token program, the Mayhem program, its global
/// params, SOL vault and mayhem state for the mint, the mayhem state's
/// Token-2022 account, the event authority and the Pump program.
pub open spec fn create_v2_accounts_in_order(a: Seq<MetaView>, user: Seq<u8>, mint: Seq<u8>) -> bool {
    let t22 = TOKEN_2022_PROGRAM_ID@;
    &&& a.len() == 16
    &&& account_is(a, 0, mint, true, true)
    &&& account_derived(a, 1, seq![SEED_MINT_AUTHORITY@], PUMP_PROGRAM_ID@, false, false)
    &&& pda_key(seq![SEED_BONDING_CURVE@, mint], PUMP_PROGRAM_ID@) matches Some(bc) && account_is(
        a,
        2,
        bc,
        false,
        true,
    ) && account_derived(a, 3, seq![bc, t22, mint], ASSOCIATED_TOKEN_PROGRAM_ID@, false, true)
    &&& account_is(a, 4, PUMP_GLOBAL@, false, false)
    &&& account_is(a, 5, user, true, true)
    &&& account_is(a, 6, SYSTEM_PROGRAM_ID@, false, false)
    &&& account_is(a, 7, t22, false, false)
    &&& account_is(a, 8, ASSOCIATED_TOKEN_PROGRAM_ID@, false, false)
    &&& account_is(a, 9, MAYHEM_PROGRAM_ID@, false, true)
    &&& account_derived(a, 10, seq![SEED_GLOBAL_PARAMS@], MAYHEM_PROGRAM_ID@, false, false)
    &&& account_derived(a, 11, seq![SEED_SOL_VAULT@], MAYHEM_PROGRAM_ID@, false, true)
    &&& pda_key(seq![SEED_MAYHEM_STATE@, mint], MAYHEM_PROGRAM_ID@) matches Some(ms) && account_is(
        a,
        12,
        ms,
        false,
        true,
    ) && account_derived(a, 13, seq![ms, t22, mint], ASSOCIATED_TOKEN_PROGRAM_ID@, false, true)
    &&& account_is(a, 14, EVENT_AUTHORITY@, false, false)
    &&& account_is(a, 15, PUMP_PROGRAM_ID@, false, false)
}

/// The PumpSwap `buy` (23 accounts) and `sell` (21 accounts) lists: pool,
/// user (signer), global config, base and quote mints, the user's base and
/// quote token accounts, the pool's base vault then quote vault, the
/// protocol fee recipient and its quote token account, the base and quote
/// token programs, System, the associated token program, the event
/// authority, the PumpSwap program, the coin creator vault's quote token
/// account and the vault itself; for a buy the global and user volume
/// accumulators; then the fee config and the fees program.
pub open spec fn swap_accounts_in_order(
    a: Seq<MetaView>,
    is_buy: bool,
    user: Seq<u8>,
    pool: Seq<u8>,
    pool_data: SwapPool,
    base_token_program: Seq<u8>,
    quote_token_program: Seq<u8>,
    protocol_fee_recipient: Seq<u8>,
) -> bool {
    let base_mint = pool_data.base_mint@;
    let quote_mint = pool_data.quote_mint@;
    let ata = ASSOCIATED_TOKEN_PROGRAM_ID@;
    let amm = PUMP_SWAP_PROGRAM_ID@;
    let fee_at: int = if is_buy {
        21
    } else {
        19
    };
    &&& a.len() == fee_at + 2
    &&& account_is(a, 0, pool, false, true)
    &&& account_is(a, 1, user, true, true)
    &&& account_derived(a, 2, seq![SEED_GLOBAL_CONFIG@], amm, false, false)
    &&& account_is(a, 3, base_mint, false, false)
    &&& account_is(a, 4, quote_mint, false, false)
    &&& account_derived(a, 5, seq![user, base_token_program, base_mint], ata, false, true)
    &&& account_derived(a, 6, seq![user, quote_token_program, quote_mint], ata, false, true)
    &&& account_is(a, 7, pool_data.pool_base_token_account@, false, true)
    &&& account_is(a, 8, pool_data.pool_quote_token_account@, false, true)
    &&& account_is(a, 9, protocol_fee_recipient, false, false)
    &&& account_derived(a, 10, seq![protocol_fee_recipient, quote_token_program, quote_mint], ata, false, true)
    &&& account_is(a, 11, base_token_program, false, false)
    &&& account_is(a, 12, quote_token_program, false, false)
    &&& account_is(a, 13, SYSTEM_PROGRAM_ID@, false, false)
    &&& account_is(a, 14, ata, false, false)
    &&& account_derived(a, 15, seq![SEED_EVENT_AUTHORITY@], amm, false, false)
    &&& account_is(a, 16, amm, false, false)
    &&& pda_key(seq![SEED_SWAP_CREATOR_VAULT@, pool_data.coin_creator@], amm) matches Some(cva)
        && account_derived(a, 17, seq![cva, quote_token_program, quote_mint], ata, false, true)
        && account_is(a, 18, cva, false, false)
    &&& is_buy ==> account_derived(a, 19, seq![SEED_GLOBAL_VOLUME_ACCUMULATOR@], amm, false, false)
    &&& is_buy ==> account_derived(a, 20, seq![SEED_USER_VOLUME_ACCUMULATOR@, user], amm, false, true)
    &&& account_derived(a, fee_at, seq![SEED_FEE_CONFIG@, amm], PUMP_FEES_PROGRAM_ID@, false, false)
    &&& account_is(a, fee_at + 1, PUMP_FEES_PROGRAM_ID@, false, false)
}

/// Every `buy` instruction lists its accounts in the Pump program's order.
pub proof fn law_buy_accounts_in_idl_order(
    user: Seq<u8>,
    mint: Seq<u8>,
    amount: u64,
    max_sol_cost: u64,
    creator: Seq<u8>,
    token_program: Seq<u8>,
    fee_recipient: Seq<u8>,
)
    requires
        buy_ix_view(user, mint, amount, max_sol_cost, creator, token_program, fee_recipient) is Some,
    ensures
        buy_accounts_in_order(
            buy_ix_view(user, mint, amount, max_sol_cost, creator, token_program, fee_recipient)->0.accounts,
            user,
            mint,
            creator,
            token_program,
            fee_recipient,
        ),
{
}

/// Every `sell` instruction lists its accounts in the Pump program's order.
pub proof fn law_sell_accounts_in_idl_order(
    user: Seq<u8>,
    mint: Seq<u8>,
    amount: u64,
    min_sol_output: u64,
    creator: Seq<u8>,
    token_program: Seq<u8>,
    fee_recipient: Seq<u8>,
)
    requires
        sell_ix_view(user, mint, amount, min_sol_output, creator, token_program, fee_recipient) is Some,
    ensures
        sell_accounts_in_order(
            sell_ix_view(user, mint, amount, min_sol_output, creator, token_program, fee_recipient)->0.accounts,
            user,
            mint,
            creator,
            token_program,
            fee_recipient,
        ),
{
}

/// Every legacy `create` instruction lists its accounts in the Pump
/// program's order.
pub proof fn law_create_accounts_in_idl_order(
    user: Seq<u8>,
    mint: Seq<u8>,
    name: Seq<u8>,
    symbol: Seq<u8>,
    uri: Seq<u8>,
)
    requires
        create_ix_view(user, mint, name, symbol, uri) is Some,
    ensures
        create_accounts_in_order(create_ix_view(user, mint, name, symbol, uri)->0.accounts, user, mint),
{
}

/// Every `create_v2` instruction lists its accounts in the Pump program's
/// order, with Token-2022 whatever the flags.
pub proof fn law_create_v2_accounts_in_idl_order(
    user: Seq<u8>,
    mint: Seq<u8>,
    name: Seq<u8>,
    symbol: Seq<u8>,
    uri: Seq<u8>,
    is_mayhem_mode: bool,
    is_cashback_enabled: bool,
)
    requires
        create_v2_ix_view(user, mint, name, symbol, uri, is_mayhem_mode, is_cashback_enabled) is Some,
    ensures
        create_v2_accounts_in_order(
            create_v2_ix_view(user, mint, name, symbol, uri, is_mayhem_mode, is_cashback_enabled)->0.accounts,
            user,
            mint,
        ),
{
}

/// Every PumpSwap `buy` instruction lists its accounts in the program's
/// order, the pool's base vault before its quote vault.
pub proof fn law_swap_buy_accounts_in_idl_order(
    user: Seq<u8>,
    pool: Seq<u8>,
    pool_data: SwapPool,
    base_amount_out: u64,
    max_quote_amount_in: u64,
    base_token_program: Seq<u8>,
    quote_token_program: Seq<u8>,
    protocol_fee_recipient: Seq<u8>,
)
    requires
        swap_buy_ix_view(
            user,
            pool,
            pool_data,
            base_amount_out,
            max_quote_amount_in,
            base_token_program,
            quote_token_program,
            protocol_fee_recipient,
        ) is Some,
    ensures
        swap_accounts_in_order(
            swap_buy_ix_view(
                user,
                pool,
                pool_data,
                base_amount_out,
                max_quote_amount_in,
                base_token_program,
                quote_token_program,
                protocol_fee_recipient,
            )->0.accounts,
            true,
            user,
            pool,
            pool_data,
            base_token_program,
            quote_token_program,
            protocol_fee_recipient,
        ),
{
}

/// Every PumpSwap `sell` instruction lists its accounts in the program's
/// order, the pool's base vault before its quote vault.
pub proof fn law_swap_sell_accounts_in_idl_order(
    user: Seq<u8>,
    pool: Seq<u8>,
    pool_data: SwapPool,
    base_amount_in: u64,
    min_quote_amount_out: u64,
    base_token_program: Seq<u8>,
    quote_token_program: Seq<u8>,
    protocol_fee_recipient: Seq<u8>,
)
    requires
        swap_sell_ix_view(
            user,
            pool,
            pool_data,
            base_amount_in,
            min_quote_amount_out,
            base_token_program,
            quote_token_program,
            protocol_fee_recipient,
        ) is Some,
    ensures
        swap_accounts_in_order(
            swap_sell_ix_view(
                user,
                pool,
                pool_data,
                base_amount_in,
                min_quote_amount_out,
                base_token_program,
                quote_token_program,
                protocol_fee_recipient,
            )->0.accounts,
            false,
            user,
            pool,
            pool_data,
            base_token_program,
            quote_token_program,
            protocol_fee_recipient,
        ),
{
}

} // verus!
