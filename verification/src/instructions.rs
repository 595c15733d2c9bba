//! Encoding of the Pump and PumpSwap instructions: Anchor discriminators,
//! Borsh arguments and the account lists of each instruction.

use vstd::prelude::*;
use vstd::string::StringSliceAdditionalSpecFns;
use crate::bytes::{append_bytes, le_u64, lemma_u64_le_roundtrip, push_u32_le, push_u64_le, u32_le, u64_le};
use crate::constants::{
    ASSOCIATED_TOKEN_PROGRAM_ID, EVENT_AUTHORITY, MAYHEM_PROGRAM_ID,
    METAPLEX_TOKEN_METADATA_ID,
    PUMP_FEES_PROGRAM_ID, PUMP_GLOBAL, PUMP_PROGRAM_ID, PUMP_SWAP_PROGRAM_ID, RENT_SYSVAR_ID,
    SEED_EVENT_AUTHORITY, SEED_GLOBAL_CONFIG, SEED_GLOBAL_PARAMS, SEED_GLOBAL_VOLUME_ACCUMULATOR,
    SEED_MINT_AUTHORITY, SEED_SOL_VAULT, SPL_TOKEN_PROGRAM_ID, SYSTEM_PROGRAM_ID,
    TOKEN_2022_PROGRAM_ID,
};
use crate::instruction::{
    AccountMeta, Instruction, InstructionView, built_as, metas_view, readonly, writable,
};
use crate::outside::{associated_token_program_id, sha256, sha256_digest, spl_token_program_id};
use crate::pda::{
    bonding_curve_pda, bonding_curve_seeds, creator_vault_pda, creator_vault_seeds, fee_config_seeds,
    global_params_pda, mayhem_state_pda, mayhem_state_seeds, metadata_seeds, metaplex_metadata_pda,
    mint_authority_pda, pda_key, pump_fee_config, pump_global_volume_accumulator,
    pump_swap_creator_vault_pda, pump_swap_creator_vault_seeds, pump_swap_event_authority,
    pump_swap_fee_config, pump_swap_global_config_pda, pump_swap_global_volume_accumulator,
    pump_swap_user_volume_accumulator_pda, single_seed, sol_vault_pda, user_volume_accumulator_pda,
    user_volume_accumulator_seeds,
};
use crate::pubkey::Pubkey;
use crate::pump_swap::SwapPool;
use crate::token_accounts::{ata_key, get_ata};

verus! {

/// The Anchor namespace of instruction methods, `global:`.
pub const ANCHOR_NAMESPACE: [u8; 7] = [103, 108, 111, 98, 97, 108, 58];

/// Method name `buy`.
pub const METHOD_BUY: [u8; 3] = [98, 117, 121];

/// Method name `sell`.
pub const METHOD_SELL: [u8; 4] = [115, 101, 108, 108];

/// Method name `create`.
pub const METHOD_CREATE: [u8; 6] = [99, 114, 101, 97, 116, 101];

/// Method name `create_v2`.
pub const METHOD_CREATE_V2: [u8; 9] = [99, 114, 101, 97, 116, 101, 95, 118, 50];

/// Discriminator of the Pump `buy` instruction.
pub const PUMP_BUY_DISCRIMINATOR: [u8; 8] = [102, 6, 61, 18, 1, 218, 235, 234];

/// Discriminator of the Pump `sell` instruction.
pub const PUMP_SELL_DISCRIMINATOR: [u8; 8] = [51, 230, 133, 164, 1, 127, 131, 173];

/// Discriminator of the Pump `create` instruction.
pub const PUMP_CREATE_DISCRIMINATOR: [u8; 8] = [24, 30, 200, 40, 5, 28, 7, 119];

/// Discriminator of the Pump `create_v2` instruction.
pub const PUMP_CREATE_V2_DISCRIMINATOR: [u8; 8] = [214, 144, 76, 236, 95, 139, 49, 180];

/// Discriminator of the PumpSwap `buy` instruction.
pub const PUMP_SWAP_BUY_DISCRIMINATOR: [u8; 8] = [102, 6, 61, 18, 1, 218, 235, 234];

/// Discriminator of the PumpSwap `sell` instruction.
pub const PUMP_SWAP_SELL_DISCRIMINATOR: [u8; 8] = [51, 230, 133, 164, 1, 127, 131, 173];

/// Accounts of the Pump `buy` instruction.
pub const PUMP_BUY_ACCOUNT_COUNT: usize = 16;

/// Accounts of the Pump `sell` instruction.
pub const PUMP_SELL_ACCOUNT_COUNT: usize = 14;

/// Accounts of the Pump `create` instruction.
pub const PUMP_CREATE_ACCOUNT_COUNT: usize = 14;

/// Accounts of the Pump `create_v2` instruction.
pub const PUMP_CREATE_V2_ACCOUNT_COUNT: usize = 16;

/// Accounts of the PumpSwap `buy` instruction.
pub const PUMP_SWAP_BUY_ACCOUNT_COUNT: usize = 23;

/// Accounts of the PumpSwap `sell` instruction.
pub const PUMP_SWAP_SELL_ACCOUNT_COUNT: usize = 21;

/// Anchor discriminator of `method`: the first eight bytes of
/// `sha256("global:" ++ method)`.
pub open spec fn method_discriminator(method: Seq<u8>) -> Seq<u8> {
    Seq::new(8, |i: int| sha256(ANCHOR_NAMESPACE@ + method)[i])
}

fn discriminator_bytes(method: &[u8]) -> (d: [u8; 8])
    ensures
        d@ == method_discriminator(method@),
{
    let mut preimage: Vec<u8> = Vec::new();
    let namespace: &[u8] = &ANCHOR_NAMESPACE;
    append_bytes(&mut preimage, namespace);
    append_bytes(&mut preimage, method);
    let hash = sha256_digest(preimage.as_slice());
    let mut d = [0u8; 8];
    let mut i: usize = 0;
    while i < 8
        invariant
            i <= 8,
            forall|j: int| 0 <= j < i ==> d@[j] == hash@[j],
        decreases 8 - i,
    {
        d[i] = hash[i];
        i = i + 1;
    }
    assert(d@ =~= method_discriminator(method@));
    d
}

/// Anchor discriminator: first 8 bytes of sha256("global:<method_name>").
pub fn discriminator(method: &str) -> (d: [u8; 8])
    ensures
        d@ == method_discriminator(method.spec_bytes()),
{
    discriminator_bytes(method.as_bytes())
}

/// Borsh encoding of a string: its byte length as a little-endian `u32`
/// (truncated to 32 bits), then its UTF-8 bytes.
pub open spec fn borsh_string_bytes(s: Seq<u8>) -> Seq<u8> {
    u32_le(s.len() as u32) + s
}

/// Borsh encoding of a string.
pub fn borsh_string(s: &str) -> (v: Vec<u8>)
    ensures
        v@ == borsh_string_bytes(s.spec_bytes()),
{
    let bytes = s.as_bytes();
    let mut buf: Vec<u8> = Vec::new();
    push_u32_le(&mut buf, bytes.len() as u32);
    append_bytes(&mut buf, bytes);
    buf
}

/// The Pump `buy` instruction, when every address it names can be derived.
pub open spec fn buy_ix_view(
    user: Seq<u8>,
    mint: Seq<u8>,
    amount: u64,
    max_sol_cost: u64,
    creator: Seq<u8>,
    token_program: Seq<u8>,
    fee_recipient: Seq<u8>,
) -> Option<InstructionView> {
    let bc = pda_key(bonding_curve_seeds(mint), PUMP_PROGRAM_ID@);
    let au = ata_key(user, mint, token_program);
    let cv = pda_key(creator_vault_seeds(creator), PUMP_PROGRAM_ID@);
    let uva = pda_key(user_volume_accumulator_seeds(user), PUMP_PROGRAM_ID@);
    let gva = pda_key(single_seed(SEED_GLOBAL_VOLUME_ACCUMULATOR@), PUMP_PROGRAM_ID@);
    let fc = pda_key(fee_config_seeds(PUMP_PROGRAM_ID@), PUMP_FEES_PROGRAM_ID@);
    match (bc, au, cv, uva, gva, fc) {
        (Some(bc), Some(au), Some(cv), Some(uva), Some(gva), Some(fc)) => match ata_key(
            bc,
            mint,
            token_program,
        ) {
            Some(abc) => Some(
                InstructionView {
                    program: PUMP_PROGRAM_ID@,
                    accounts: seq![
                        readonly(PUMP_GLOBAL@, false),
                        writable(fee_recipient, false),
                        readonly(mint, false),
                        writable(bc, false),
                        writable(abc, false),
                        writable(au, false),
                        writable(user, true),
                        readonly(SYSTEM_PROGRAM_ID@, false),
                        readonly(token_program, false),
                        writable(cv, false),
                        readonly(EVENT_AUTHORITY@, false),
                        readonly(PUMP_PROGRAM_ID@, false),
                        readonly(gva, false),
                        writable(uva, false),
                        readonly(fc, false),
                        readonly(PUMP_FEES_PROGRAM_ID@, false),
                    ],
                    data: method_discriminator(METHOD_BUY@) + u64_le(amount) + u64_le(max_sol_cost)
                        + seq![0u8],
                },
            ),
            None => None,
        },
        _ => None,
    }
}

/// Builds the Pump `buy` instruction; `None` when one of its derived
/// addresses cannot be found.
pub fn build_buy_ix(
    user: &Pubkey,
    mint: &Pubkey,
    amount: u64,
    max_sol_cost: u64,
    creator: &Pubkey,
    token_program: &Pubkey,
    fee_recipient: &Pubkey,
) -> (r: Option<Instruction>)
    ensures
        built_as(
            r,
            buy_ix_view(user@, mint@, amount, max_sol_cost, creator@, token_program@, fee_recipient@),
        ),
        r matches Some(ix) ==> ix.data@.len() == 25,
        r matches Some(ix) ==> crate::idl::buy_accounts_in_order(metas_view(ix.accounts@), user@, mint@, creator@, token_program@, fee_recipient@),
        r matches Some(ix) ==> ix.program_id@ == PUMP_PROGRAM_ID@ && ix.data@.subrange(0, 8) == method_discriminator(METHOD_BUY@) && le_u64(ix.data@.subrange(8, 16)) == amount && le_u64(ix.data@.subrange(16, 24)) == max_sol_cost && ix.data@[24] == 0,
{
    let bonding_curve = match bonding_curve_pda(mint) {
        Some(p) => p.0,
        None => return None,
    };
    let associated_bonding_curve = match get_ata(&bonding_curve, mint, token_program) {
        Some(k) => k,
        None => return None,
    };
    let associated_user = match get_ata(user, mint, token_program) {
        Some(k) => k,
        None => return None,
    };
    let creator_vault = match creator_vault_pda(creator) {
        Some(p) => p.0,
        None => return None,
    };
    let user_volume_acc = match user_volume_accumulator_pda(user) {
        Some(p) => p.0,
        None => return None,
    };
    let global_volume_acc = match pump_global_volume_accumulator() {
        Some(p) => p.0,
        None => return None,
    };
    let fee_config = match pump_fee_config() {
        Some(p) => p.0,
        None => return None,
    };
    let mut data: Vec<u8> = Vec::new();
    let disc = discriminator_bytes(&METHOD_BUY);
    let disc_slice: &[u8] = &disc;
    append_bytes(&mut data, disc_slice);
    push_u64_le(&mut data, amount);
    push_u64_le(&mut data, max_sol_cost);
    data.push(0);
    let accounts = vec![
        AccountMeta::new_readonly(Pubkey(PUMP_GLOBAL), false),
        AccountMeta::new(*fee_recipient, false),
        AccountMeta::new_readonly(*mint, false),
        AccountMeta::new(bonding_curve, false),
        AccountMeta::new(associated_bonding_curve, false),
        AccountMeta::new(associated_user, false),
        AccountMeta::new(*user, true),
        AccountMeta::new_readonly(Pubkey(SYSTEM_PROGRAM_ID), false),
        AccountMeta::new_readonly(*token_program, false),
        AccountMeta::new(creator_vault, false),
        AccountMeta::new_readonly(Pubkey(EVENT_AUTHORITY), false),
        AccountMeta::new_readonly(Pubkey(PUMP_PROGRAM_ID), false),
        AccountMeta::new_readonly(global_volume_acc, false),
        AccountMeta::new(user_volume_acc, false),
        AccountMeta::new_readonly(fee_config, false),
        AccountMeta::new_readonly(Pubkey(PUMP_FEES_PROGRAM_ID), false),
    ];
    let ix = Instruction { program_id: Pubkey(PUMP_PROGRAM_ID), accounts, data };
    proof {
        let expected = buy_ix_view(user@, mint@, amount, max_sol_cost, creator@, token_program@, fee_recipient@);
        assert(metas_view(ix.accounts@) =~= expected->0.accounts);
        assert(ix.data@ =~= expected->0.data);
    }
    proof {
        crate::idl::law_buy_accounts_in_idl_order(user@, mint@, amount, max_sol_cost, creator@, token_program@, fee_recipient@);
    }
    proof {
        lemma_u64_le_roundtrip(amount);
        lemma_u64_le_roundtrip(max_sol_cost);
        assert(ix.data@.subrange(0, 8) =~= method_discriminator(METHOD_BUY@));
        assert(ix.data@.subrange(8, 16) =~= u64_le(amount));
        assert(ix.data@.subrange(16, 24) =~= u64_le(max_sol_cost));
    }
    Some(ix)
}

/// The Pump `sell` instruction, when every address it names can be derived.
pub open spec fn sell_ix_view(
    user: Seq<u8>,
    mint: Seq<u8>,
    amount: u64,
    min_sol_output: u64,
    creator: Seq<u8>,
    token_program: Seq<u8>,
    fee_recipient: Seq<u8>,
) -> Option<InstructionView> {
    let bc = pda_key(bonding_curve_seeds(mint), PUMP_PROGRAM_ID@);
    let au = ata_key(user, mint, token_program);
    let cv = pda_key(creator_vault_seeds(creator), PUMP_PROGRAM_ID@);
    let fc = pda_key(fee_config_seeds(PUMP_PROGRAM_ID@), PUMP_FEES_PROGRAM_ID@);
    match (bc, au, cv, fc) {
        (Some(bc), Some(au), Some(cv), Some(fc)) => match ata_key(bc, mint, token_program) {
            Some(abc) => Some(
                InstructionView {
                    program: PUMP_PROGRAM_ID@,
                    accounts: seq![
                        readonly(PUMP_GLOBAL@, false),
                        writable(fee_recipient, false),
                        readonly(mint, false),
                        writable(bc, false),
                        writable(abc, false),
                        writable(au, false),
                        writable(user, true),
                        readonly(SYSTEM_PROGRAM_ID@, false),
                        writable(cv, false),
                        readonly(token_program, false),
                        readonly(EVENT_AUTHORITY@, false),
                        readonly(PUMP_PROGRAM_ID@, false),
                        readonly(fc, false),
                        readonly(PUMP_FEES_PROGRAM_ID@, false),
                    ],
                    data: method_discriminator(METHOD_SELL@) + u64_le(amount) + u64_le(min_sol_output),
                },
            ),
            None => None,
        },
        _ => None,
    }
}

/// Builds the Pump `sell` instruction; `None` when one of its derived
/// addresses cannot be found.
pub fn build_sell_ix(
    user: &Pubkey,
    mint: &Pubkey,
    amount: u64,
    min_sol_output: u64,
    creator: &Pubkey,
    token_program: &Pubkey,
    fee_recipient: &Pubkey,
) -> (r: Option<Instruction>)
    ensures
        built_as(
            r,
            sell_ix_view(user@, mint@, amount, min_sol_output, creator@, token_program@, fee_recipient@),
        ),
        r matches Some(ix) ==> ix.data@.len() == 24,
        r matches Some(ix) ==> crate::idl::sell_accounts_in_order(metas_view(ix.accounts@), user@, mint@, creator@, token_program@, fee_recipient@),
        r matches Some(ix) ==> ix.program_id@ == PUMP_PROGRAM_ID@ && ix.data@.subrange(0, 8) == method_discriminator(METHOD_SELL@) && le_u64(ix.data@.subrange(8, 16)) == amount && le_u64(ix.data@.subrange(16, 24)) == min_sol_output,
{
    let bonding_curve = match bonding_curve_pda(mint) {
        Some(p) => p.0,
        None => return None,
    };
    let associated_bonding_curve = match get_ata(&bonding_curve, mint, token_program) {
        Some(k) => k,
        None => return None,
    };
    let associated_user = match get_ata(user, mint, token_program) {
        Some(k) => k,
        None => return None,
    };
    let creator_vault = match creator_vault_pda(creator) {
        Some(p) => p.0,
        None => return None,
    };
    let fee_config = match pump_fee_config() {
        Some(p) => p.0,
        None => return None,
    };
    let mut data: Vec<u8> = Vec::new();
    let disc = discriminator_bytes(&METHOD_SELL);
    let disc_slice: &[u8] = &disc;
    append_bytes(&mut data, disc_slice);
    push_u64_le(&mut data, amount);
    push_u64_le(&mut data, min_sol_output);
    let accounts = vec![
        AccountMeta::new_readonly(Pubkey(PUMP_GLOBAL), false),
        AccountMeta::new(*fee_recipient, false),
        AccountMeta::new_readonly(*mint, false),
        AccountMeta::new(bonding_curve, false),
        AccountMeta::new(associated_bonding_curve, false),
        AccountMeta::new(associated_user, false),
        AccountMeta::new(*user, true),
        AccountMeta::new_readonly(Pubkey(SYSTEM_PROGRAM_ID), false),
        AccountMeta::new(creator_vault, false),
        AccountMeta::new_readonly(*token_program, false),
        AccountMeta::new_readonly(Pubkey(EVENT_AUTHORITY), false),
        AccountMeta::new_readonly(Pubkey(PUMP_PROGRAM_ID), false),
        AccountMeta::new_readonly(fee_config, false),
        AccountMeta::new_readonly(Pubkey(PUMP_FEES_PROGRAM_ID), false),
    ];
    let ix = Instruction { program_id: Pubkey(PUMP_PROGRAM_ID), accounts, data };
    proof {
        let expected = sell_ix_view(user@, mint@, amount, min_sol_output, creator@, token_program@, fee_recipient@);
        assert(metas_view(ix.accounts@) =~= expected->0.accounts);
        assert(ix.data@ =~= expected->0.data);
    }
    proof {
        crate::idl::law_sell_accounts_in_idl_order(user@, mint@, amount, min_sol_output, creator@, token_program@, fee_recipient@);
    }
    proof {
        lemma_u64_le_roundtrip(amount);
        lemma_u64_le_roundtrip(min_sol_output);
        assert(ix.data@.subrange(0, 8) =~= method_discriminator(METHOD_SELL@));
        assert(ix.data@.subrange(8, 16) =~= u64_le(amount));
        assert(ix.data@.subrange(16, 24) =~= u64_le(min_sol_output));
    }
    Some(ix)
}

/// Arguments of the create instructions: the Borsh strings `name`, `symbol`
/// and `uri`, then the creator's address.
pub open spec fn create_args(name: Seq<u8>, symbol: Seq<u8>, uri: Seq<u8>, user: Seq<u8>) -> Seq<u8> {
    borsh_string_bytes(name) + borsh_string_bytes(symbol) + borsh_string_bytes(uri) + user
}

/// The legacy Pump `create` instruction (SPL Token mint), when every address
/// it names can be derived.
pub open spec fn create_ix_view(
    user: Seq<u8>,
    mint: Seq<u8>,
    name: Seq<u8>,
    symbol: Seq<u8>,
    uri: Seq<u8>,
) -> Option<InstructionView> {
    let ma = pda_key(single_seed(SEED_MINT_AUTHORITY@), PUMP_PROGRAM_ID@);
    let bc = pda_key(bonding_curve_seeds(mint), PUMP_PROGRAM_ID@);
    let md = pda_key(metadata_seeds(mint), METAPLEX_TOKEN_METADATA_ID@);
    match (ma, bc, md) {
        (Some(ma), Some(bc), Some(md)) => match ata_key(bc, mint, SPL_TOKEN_PROGRAM_ID@) {
            Some(abc) => Some(
                InstructionView {
                    program: PUMP_PROGRAM_ID@,
                    accounts: seq![
                        writable(mint, true),
                        readonly(ma, false),
                        writable(bc, false),
                        writable(abc, false),
                        readonly(PUMP_GLOBAL@, false),
                        readonly(METAPLEX_TOKEN_METADATA_ID@, false),
                        writable(md, false),
                        writable(user, true),
                        readonly(SYSTEM_PROGRAM_ID@, false),
                        readonly(SPL_TOKEN_PROGRAM_ID@, false),
                        readonly(ASSOCIATED_TOKEN_PROGRAM_ID@, false),
                        readonly(RENT_SYSVAR_ID@, false),
                        readonly(EVENT_AUTHORITY@, false),
                        readonly(PUMP_PROGRAM_ID@, false),
                    ],
                    data: method_discriminator(METHOD_CREATE@) + create_args(name, symbol, uri, user),
                },
            ),
            None => None,
        },
        _ => None,
    }
}

/// Builds the legacy Pump `create` instruction; `None` when one of its
/// derived addresses cannot be found.
pub fn build_create_ix(user: &Pubkey, mint: &Pubkey, name: &str, symbol: &str, uri: &str) -> (r:
    Option<Instruction>)
    ensures
        built_as(
            r,
            create_ix_view(user@, mint@, name.spec_bytes(), symbol.spec_bytes(), uri.spec_bytes()),
        ),
        r matches Some(ix) ==> ix.data@.len() == 8 + create_args(
            name.spec_bytes(),
            symbol.spec_bytes(),
            uri.spec_bytes(),
            user@,
        ).len(),
        r matches Some(ix) ==> crate::idl::create_accounts_in_order(metas_view(ix.accounts@), user@, mint@),
{
    let mint_authority = match mint_authority_pda() {
        Some(p) => p.0,
        None => return None,
    };
    let bonding_curve = match bonding_curve_pda(mint) {
        Some(p) => p.0,
        None => return None,
    };
    let spl_token = spl_token_program_id();
    let associated_bonding_curve = match get_ata(&bonding_curve, mint, &spl_token) {
        Some(k) => k,
        None => return None,
    };
    let metadata = match metaplex_metadata_pda(mint) {
        Some(p) => p.0,
        None => return None,
    };
    let mut data: Vec<u8> = Vec::new();
    let disc = discriminator_bytes(&METHOD_CREATE);
    let disc_slice: &[u8] = &disc;
    append_bytes(&mut data, disc_slice);
    let name_bytes = borsh_string(name);
    append_bytes(&mut data, name_bytes.as_slice());
    let symbol_bytes = borsh_string(symbol);
    append_bytes(&mut data, symbol_bytes.as_slice());
    let uri_bytes = borsh_string(uri);
    append_bytes(&mut data, uri_bytes.as_slice());
    let user_bytes: &[u8] = &user.0;
    append_bytes(&mut data, user_bytes);
    let accounts = vec![
        AccountMeta::new(*mint, true),
        AccountMeta::new_readonly(mint_authority, false),
        AccountMeta::new(bonding_curve, false),
        AccountMeta::new(associated_bonding_curve, false),
        AccountMeta::new_readonly(Pubkey(PUMP_GLOBAL), false),
        AccountMeta::new_readonly(Pubkey(METAPLEX_TOKEN_METADATA_ID), false),
        AccountMeta::new(metadata, false),
        AccountMeta::new(*user, true),
        AccountMeta::new_readonly(Pubkey(SYSTEM_PROGRAM_ID), false),
        AccountMeta::new_readonly(spl_token, false),
        AccountMeta::new_readonly(associated_token_program_id(), false),
        AccountMeta::new_readonly(Pubkey(RENT_SYSVAR_ID), false),
        AccountMeta::new_readonly(Pubkey(EVENT_AUTHORITY), false),
        AccountMeta::new_readonly(Pubkey(PUMP_PROGRAM_ID), false),
    ];
    let ix = Instruction { program_id: Pubkey(PUMP_PROGRAM_ID), accounts, data };
    proof {
        let expected = create_ix_view(user@, mint@, name.spec_bytes(), symbol.spec_bytes(), uri.spec_bytes());
        assert(metas_view(ix.accounts@) =~= expected->0.accounts);
        assert(ix.data@ =~= expected->0.data);
    }
    proof {
        crate::idl::law_create_accounts_in_idl_order(user@, mint@, name.spec_bytes(), symbol.spec_bytes(), uri.spec_bytes());
    }
    Some(ix)
}

/// The Pump `create_v2` instruction (always a Token-2022 mint), when every
/// address it names can be derived.
pub open spec fn create_v2_ix_view(
    user: Seq<u8>,
    mint: Seq<u8>,
    name: Seq<u8>,
    symbol: Seq<u8>,
    uri: Seq<u8>,
    is_mayhem_mode: bool,
    is_cashback_enabled: bool,
) -> Option<InstructionView> {
    let tp = TOKEN_2022_PROGRAM_ID@;
    let ma = pda_key(single_seed(SEED_MINT_AUTHORITY@), PUMP_PROGRAM_ID@);
    let bc = pda_key(bonding_curve_seeds(mint), PUMP_PROGRAM_ID@);
    let gp = pda_key(single_seed(SEED_GLOBAL_PARAMS@), MAYHEM_PROGRAM_ID@);
    let sv = pda_key(single_seed(SEED_SOL_VAULT@), MAYHEM_PROGRAM_ID@);
    let ms = pda_key(mayhem_state_seeds(mint), MAYHEM_PROGRAM_ID@);
    match (ma, bc, gp, sv, ms) {
        (Some(ma), Some(bc), Some(gp), Some(sv), Some(ms)) => match (
            ata_key(bc, mint, tp),
            ata_key(ms, mint, tp),
        ) {
            (Some(abc), Some(mtv)) => Some(
                InstructionView {
                    program: PUMP_PROGRAM_ID@,
                    accounts: seq![
                        writable(mint, true),
                        readonly(ma, false),
                        writable(bc, false),
                        writable(abc, false),
                        readonly(PUMP_GLOBAL@, false),
                        writable(user, true),
                        readonly(SYSTEM_PROGRAM_ID@, false),
                        readonly(tp, false),
                        readonly(ASSOCIATED_TOKEN_PROGRAM_ID@, false),
                        writable(MAYHEM_PROGRAM_ID@, false),
                        readonly(gp, false),
                        writable(sv, false),
                        writable(ms, false),
                        writable(mtv, false),
                        readonly(EVENT_AUTHORITY@, false),
                        readonly(PUMP_PROGRAM_ID@, false),
                    ],
                    data: method_discriminator(METHOD_CREATE_V2@) + create_args(name, symbol, uri, user)
                        + seq![
                        if is_mayhem_mode {
                            1u8
                        } else {
                            0u8
                        },
                        if is_cashback_enabled {
                            1u8
                        } else {
                            0u8
                        },
                    ],
                },
            ),
            _ => None,
        },
        _ => None,
    }
}

/// Builds the Pump `create_v2` instruction. The mint is always a Token-2022
/// mint: `token_program` is accepted and not used.
pub fn build_create_v2_ix(
    user: &Pubkey,
    mint: &Pubkey,
    name: &str,
    symbol: &str,
    uri: &str,
    token_program: &Pubkey,
    is_mayhem_mode: bool,
    is_cashback_enabled: bool,
) -> (r: Option<Instruction>)
    ensures
        built_as(
            r,
            create_v2_ix_view(
                user@,
                mint@,
                name.spec_bytes(),
                symbol.spec_bytes(),
                uri.spec_bytes(),
                is_mayhem_mode,
                is_cashback_enabled,
            ),
        ),
        r matches Some(ix) ==> ix.data@.len() == 8 + create_args(
            name.spec_bytes(),
            symbol.spec_bytes(),
            uri.spec_bytes(),
            user@,
        ).len() + 2,
        r matches Some(ix) ==> crate::idl::create_v2_accounts_in_order(metas_view(ix.accounts@), user@, mint@),
{
    let tp = Pubkey(TOKEN_2022_PROGRAM_ID);
    let mint_authority = match mint_authority_pda() {
        Some(p) => p.0,
        None => return None,
    };
    let bonding_curve = match bonding_curve_pda(mint) {
        Some(p) => p.0,
        None => return None,
    };
    let associated_bonding_curve = match get_ata(&bonding_curve, mint, &tp) {
        Some(k) => k,
        None => return None,
    };
    let global_params = match global_params_pda() {
        Some(p) => p.0,
        None => return None,
    };
    let sol_vault = match sol_vault_pda() {
        Some(p) => p.0,
        None => return None,
    };
    let mayhem_state = match mayhem_state_pda(mint) {
        Some(p) => p.0,
        None => return None,
    };
    let mayhem_token_vault = match get_ata(&mayhem_state, mint, &tp) {
        Some(k) => k,
        None => return None,
    };
    let mut data: Vec<u8> = Vec::new();
    let disc = discriminator_bytes(&METHOD_CREATE_V2);
    let disc_slice: &[u8] = &disc;
    append_bytes(&mut data, disc_slice);
    let name_bytes = borsh_string(name);
    append_bytes(&mut data, name_bytes.as_slice());
    let symbol_bytes = borsh_string(symbol);
    append_bytes(&mut data, symbol_bytes.as_slice());
    let uri_bytes = borsh_string(uri);
    append_bytes(&mut data, uri_bytes.as_slice());
    let user_bytes: &[u8] = &user.0;
    append_bytes(&mut data, user_bytes);
    data.push(if is_mayhem_mode { 1u8 } else { 0u8 });
    data.push(if is_cashback_enabled { 1u8 } else { 0u8 });
    let accounts = vec![
        AccountMeta::new(*mint, true),
        AccountMeta::new_readonly(mint_authority, false),
        AccountMeta::new(bonding_curve, false),
        AccountMeta::new(associated_bonding_curve, false),
        AccountMeta::new_readonly(Pubkey(PUMP_GLOBAL), false),
        AccountMeta::new(*user, true),
        AccountMeta::new_readonly(Pubkey(SYSTEM_PROGRAM_ID), false),
        AccountMeta::new_readonly(tp, false),
        AccountMeta::new_readonly(associated_token_program_id(), false),
        AccountMeta::new(Pubkey(MAYHEM_PROGRAM_ID), false),
        AccountMeta::new_readonly(global_params, false),
        AccountMeta::new(sol_vault, false),
        AccountMeta::new(mayhem_state, false),
        AccountMeta::new(mayhem_token_vault, false),
        AccountMeta::new_readonly(Pubkey(EVENT_AUTHORITY), false),
        AccountMeta::new_readonly(Pubkey(PUMP_PROGRAM_ID), false),
    ];
    let ix = Instruction { program_id: Pubkey(PUMP_PROGRAM_ID), accounts, data };
    proof {
        let expected = create_v2_ix_view(
            user@,
            mint@,
            name.spec_bytes(),
            symbol.spec_bytes(),
            uri.spec_bytes(),
            is_mayhem_mode,
            is_cashback_enabled,
        );
        assert(metas_view(ix.accounts@) =~= expected->0.accounts);
        assert(ix.data@ =~= expected->0.data);
    }
    proof {
        crate::idl::law_create_v2_accounts_in_idl_order(user@, mint@, name.spec_bytes(), symbol.spec_bytes(), uri.spec_bytes(), is_mayhem_mode, is_cashback_enabled);
    }
    Some(ix)
}

/// The PumpSwap trade instructions (`buy` when `is_buy`, `sell` otherwise):
/// their shared account list, when every address it names can be derived.
pub open spec fn swap_accounts_view(
    is_buy: bool,
    user: Seq<u8>,
    pool: Seq<u8>,
    pool_data: SwapPool,
    base_token_program: Seq<u8>,
    quote_token_program: Seq<u8>,
    protocol_fee_recipient: Seq<u8>,
) -> Option<Seq<crate::instruction::MetaView>> {
    let base_mint = pool_data.base_mint@;
    let quote_mint = pool_data.quote_mint@;
    let uba = ata_key(user, base_mint, base_token_program);
    let uqa = ata_key(user, quote_mint, quote_token_program);
    let cva = pda_key(pump_swap_creator_vault_seeds(pool_data.coin_creator@), PUMP_SWAP_PROGRAM_ID@);
    let gc = pda_key(single_seed(SEED_GLOBAL_CONFIG@), PUMP_SWAP_PROGRAM_ID@);
    let pfa = ata_key(protocol_fee_recipient, quote_mint, quote_token_program);
    let ea = pda_key(single_seed(SEED_EVENT_AUTHORITY@), PUMP_SWAP_PROGRAM_ID@);
    let fc = pda_key(fee_config_seeds(PUMP_SWAP_PROGRAM_ID@), PUMP_FEES_PROGRAM_ID@);
    match (uba, uqa, cva, gc, pfa, ea, fc) {
        (Some(uba), Some(uqa), Some(cva), Some(gc), Some(pfa), Some(ea), Some(fc)) => match ata_key(
            cva,
            quote_mint,
            quote_token_program,
        ) {
            Some(cv_ata) => {
                let head = seq![
                    writable(pool, false),
                    writable(user, true),
                    readonly(gc, false),
                    readonly(base_mint, false),
                    readonly(quote_mint, false),
                    writable(uba, false),
                    writable(uqa, false),
                    writable(pool_data.pool_base_token_account@, false),
                    writable(pool_data.pool_quote_token_account@, false),
                    readonly(protocol_fee_recipient, false),
                    writable(pfa, false),
                    readonly(base_token_program, false),
                    readonly(quote_token_program, false),
                    readonly(SYSTEM_PROGRAM_ID@, false),
                    readonly(ASSOCIATED_TOKEN_PROGRAM_ID@, false),
                    readonly(ea, false),
                    readonly(PUMP_SWAP_PROGRAM_ID@, false),
                    writable(cv_ata, false),
                    readonly(cva, false),
                ];
                let tail = seq![readonly(fc, false), readonly(PUMP_FEES_PROGRAM_ID@, false)];
                if is_buy {
                    let gva = pda_key(
                        single_seed(SEED_GLOBAL_VOLUME_ACCUMULATOR@),
                        PUMP_SWAP_PROGRAM_ID@,
                    );
                    let uva = pda_key(user_volume_accumulator_seeds(user), PUMP_SWAP_PROGRAM_ID@);
                    match (gva, uva) {
                        (Some(gva), Some(uva)) => Some(
                            head + seq![readonly(gva, false), writable(uva, false)] + tail,
                        ),
                        _ => None,
                    }
                } else {
                    Some(head + tail)
                }
            },
            None => None,
        },
        _ => None,
    }
}

/// The PumpSwap `buy` instruction, when every address it names can be derived.
pub open spec fn swap_buy_ix_view(
    user: Seq<u8>,
    pool: Seq<u8>,
    pool_data: SwapPool,
    base_amount_out: u64,
    max_quote_amount_in: u64,
    base_token_program: Seq<u8>,
    quote_token_program: Seq<u8>,
    protocol_fee_recipient: Seq<u8>,
) -> Option<InstructionView> {
    match swap_accounts_view(
        true,
        user,
        pool,
        pool_data,
        base_token_program,
        quote_token_program,
        protocol_fee_recipient,
    ) {
        Some(accounts) => Some(
            InstructionView {
                program: PUMP_SWAP_PROGRAM_ID@,
                accounts,
                data: method_discriminator(METHOD_BUY@) + u64_le(base_amount_out) + u64_le(
                    max_quote_amount_in,
                ) + seq![0u8],
            },
        ),
        None => None,
    }
}

/// The PumpSwap `sell` instruction, when every address it names can be derived.
pub open spec fn swap_sell_ix_view(
    user: Seq<u8>,
    pool: Seq<u8>,
    pool_data: SwapPool,
    base_amount_in: u64,
    min_quote_amount_out: u64,
    base_token_program: Seq<u8>,
    quote_token_program: Seq<u8>,
    protocol_fee_recipient: Seq<u8>,
) -> Option<InstructionView> {
    match swap_accounts_view(
        false,
        user,
        pool,
        pool_data,
        base_token_program,
        quote_token_program,
        protocol_fee_recipient,
    ) {
        Some(accounts) => Some(
            InstructionView {
                program: PUMP_SWAP_PROGRAM_ID@,
                accounts,
                data: method_discriminator(METHOD_SELL@) + u64_le(base_amount_in) + u64_le(
                    min_quote_amount_out,
                ),
            },
        ),
        None => None,
    }
}

/// Accounts shared by the PumpSwap trade instructions, in instruction order,
/// with the volume accumulators when `is_buy`.
fn swap_accounts(
    is_buy: bool,
    user: &Pubkey,
    pool: &Pubkey,
    pool_data: &SwapPool,
    base_token_program: &Pubkey,
    quote_token_program: &Pubkey,
    protocol_fee_recipient: &Pubkey,
) -> (r: Option<Vec<AccountMeta>>)
    ensures
        match r {
            Some(metas) => swap_accounts_view(
                is_buy,
                user@,
                pool@,
                *pool_data,
                base_token_program@,
                quote_token_program@,
                protocol_fee_recipient@,
            ) == Some(metas_view(metas@)),
            None => swap_accounts_view(
                is_buy,
                user@,
                pool@,
                *pool_data,
                base_token_program@,
                quote_token_program@,
                protocol_fee_recipient@,
            ) is None,
        },
{
    let user_base_ata = match get_ata(user, &pool_data.base_mint, base_token_program) {
        Some(k) => k,
        None => return None,
    };
    let user_quote_ata = match get_ata(user, &pool_data.quote_mint, quote_token_program) {
        Some(k) => k,
        None => return None,
    };
    let creator_vault_authority = match pump_swap_creator_vault_pda(&pool_data.coin_creator) {
        Some(p) => p.0,
        None => return None,
    };
    let creator_vault_ata = match get_ata(
        &creator_vault_authority,
        &pool_data.quote_mint,
        quote_token_program,
    ) {
        Some(k) => k,
        None => return None,
    };
    let global_config = match pump_swap_global_config_pda() {
        Some(p) => p.0,
        None => return None,
    };
    let protocol_fee_ata = match get_ata(
        protocol_fee_recipient,
        &pool_data.quote_mint,
        quote_token_program,
    ) {
        Some(k) => k,
        None => return None,
    };
    let event_authority = match pump_swap_event_authority() {
        Some(p) => p.0,
        None => return None,
    };
    let fee_config = match pump_swap_fee_config() {
        Some(p) => p.0,
        None => return None,
    };
    let mut accounts = vec![
        AccountMeta::new(*pool, false),
        AccountMeta::new(*user, true),
        AccountMeta::new_readonly(global_config, false),
        AccountMeta::new_readonly(pool_data.base_mint, false),
        AccountMeta::new_readonly(pool_data.quote_mint, false),
        AccountMeta::new(user_base_ata, false),
        AccountMeta::new(user_quote_ata, false),
        AccountMeta::new(pool_data.pool_base_token_account, false),
        AccountMeta::new(pool_data.pool_quote_token_account, false),
        AccountMeta::new_readonly(*protocol_fee_recipient, false),
        AccountMeta::new(protocol_fee_ata, false),
        AccountMeta::new_readonly(*base_token_program, false),
        AccountMeta::new_readonly(*quote_token_program, false),
        AccountMeta::new_readonly(Pubkey(SYSTEM_PROGRAM_ID), false),
        AccountMeta::new_readonly(associated_token_program_id(), false),
        AccountMeta::new_readonly(event_authority, false),
        AccountMeta::new_readonly(Pubkey(PUMP_SWAP_PROGRAM_ID), false),
        AccountMeta::new(creator_vault_ata, false),
        AccountMeta::new_readonly(creator_vault_authority, false),
    ];
    let ghost head = accounts@;
    if is_buy {
        let global_volume_acc = match pump_swap_global_volume_accumulator() {
            Some(p) => p.0,
            None => return None,
        };
        let user_volume_acc = match pump_swap_user_volume_accumulator_pda(user) {
            Some(p) => p.0,
            None => return None,
        };
        accounts.push(AccountMeta::new_readonly(global_volume_acc, false));
        accounts.push(AccountMeta::new(user_volume_acc, false));
    }
    let ghost mid = accounts@;
    accounts.push(AccountMeta::new_readonly(fee_config, false));
    accounts.push(AccountMeta::new_readonly(Pubkey(PUMP_FEES_PROGRAM_ID), false));
    proof {
        let expected = swap_accounts_view(
            is_buy,
            user@,
            pool@,
            *pool_data,
            base_token_program@,
            quote_token_program@,
            protocol_fee_recipient@,
        );
        assert(metas_view(accounts@) =~= expected->0);
    }
    Some(accounts)
}

/// Builds the PumpSwap `buy` instruction; `None` when one of its derived
/// addresses cannot be found.
pub fn build_swap_buy_ix(
    user: &Pubkey,
    pool: &Pubkey,
    pool_data: &SwapPool,
    base_amount_out: u64,
    max_quote_amount_in: u64,
    base_token_program: &Pubkey,
    quote_token_program: &Pubkey,
    protocol_fee_recipient: &Pubkey,
) -> (r: Option<Instruction>)
    ensures
        built_as(
            r,
            swap_buy_ix_view(
                user@,
                pool@,
                *pool_data,
                base_amount_out,
                max_quote_amount_in,
                base_token_program@,
                quote_token_program@,
                protocol_fee_recipient@,
            ),
        ),
        r matches Some(ix) ==> ix.data@.len() == 25,
        r matches Some(ix) ==> crate::idl::swap_accounts_in_order(metas_view(ix.accounts@), true, user@, pool@, *pool_data, base_token_program@, quote_token_program@, protocol_fee_recipient@),
        r matches Some(ix) ==> ix.program_id@ == PUMP_SWAP_PROGRAM_ID@ && ix.data@.subrange(0, 8) == method_discriminator(METHOD_BUY@) && le_u64(ix.data@.subrange(8, 16)) == base_amount_out && le_u64(ix.data@.subrange(16, 24)) == max_quote_amount_in && ix.data@[24] == 0,
{
    let accounts = match swap_accounts(
        true,
        user,
        pool,
        pool_data,
        base_token_program,
        quote_token_program,
        protocol_fee_recipient,
    ) {
        Some(a) => a,
        None => return None,
    };
    let mut data: Vec<u8> = Vec::new();
    let disc = discriminator_bytes(&METHOD_BUY);
    let disc_slice: &[u8] = &disc;
    append_bytes(&mut data, disc_slice);
    push_u64_le(&mut data, base_amount_out);
    push_u64_le(&mut data, max_quote_amount_in);
    data.push(0);
    let ix = Instruction { program_id: Pubkey(PUMP_SWAP_PROGRAM_ID), accounts, data };
    proof {
        let expected = swap_buy_ix_view(
            user@,
            pool@,
            *pool_data,
            base_amount_out,
            max_quote_amount_in,
            base_token_program@,
            quote_token_program@,
            protocol_fee_recipient@,
        );
        assert(ix.data@ =~= expected->0.data);
    }
    proof {
        crate::idl::law_swap_buy_accounts_in_idl_order(user@, pool@, *pool_data, base_amount_out, max_quote_amount_in, base_token_program@, quote_token_program@, protocol_fee_recipient@);
    }
    proof {
        lemma_u64_le_roundtrip(base_amount_out);
        lemma_u64_le_roundtrip(max_quote_amount_in);
        assert(ix.data@.subrange(0, 8) =~= method_discriminator(METHOD_BUY@));
        assert(ix.data@.subrange(8, 16) =~= u64_le(base_amount_out));
        assert(ix.data@.subrange(16, 24) =~= u64_le(max_quote_amount_in));
    }
    Some(ix)
}

/// Builds the PumpSwap `sell` instruction; `None` when one of its derived
/// addresses cannot be found.
pub fn build_swap_sell_ix(
    user: &Pubkey,
    pool: &Pubkey,
    pool_data: &SwapPool,
    base_amount_in: u64,
    min_quote_amount_out: u64,
    base_token_program: &Pubkey,
    quote_token_program: &Pubkey,
    protocol_fee_recipient: &Pubkey,
) -> (r: Option<Instruction>)
    ensures
        built_as(
            r,
            swap_sell_ix_view(
                user@,
                pool@,
                *pool_data,
                base_amount_in,
                min_quote_amount_out,
                base_token_program@,
                quote_token_program@,
                protocol_fee_recipient@,
            ),
        ),
        r matches Some(ix) ==> ix.data@.len() == 24,
        r matches Some(ix) ==> crate::idl::swap_accounts_in_order(metas_view(ix.accounts@), false, user@, pool@, *pool_data, base_token_program@, quote_token_program@, protocol_fee_recipient@),
        r matches Some(ix) ==> ix.program_id@ == PUMP_SWAP_PROGRAM_ID@ && ix.data@.subrange(0, 8) == method_discriminator(METHOD_SELL@) && le_u64(ix.data@.subrange(8, 16)) == base_amount_in && le_u64(ix.data@.subrange(16, 24)) == min_quote_amount_out,
{
    let accounts = match swap_accounts(
        false,
        user,
        pool,
        pool_data,
        base_token_program,
        quote_token_program,
        protocol_fee_recipient,
    ) {
        Some(a) => a,
        None => return None,
    };
    let mut data: Vec<u8> = Vec::new();
    let disc = discriminator_bytes(&METHOD_SELL);
    let disc_slice: &[u8] = &disc;
    append_bytes(&mut data, disc_slice);
    push_u64_le(&mut data, base_amount_in);
    push_u64_le(&mut data, min_quote_amount_out);
    let ix = Instruction { program_id: Pubkey(PUMP_SWAP_PROGRAM_ID), accounts, data };
    proof {
        let expected = swap_sell_ix_view(
            user@,
            pool@,
            *pool_data,
            base_amount_in,
            min_quote_amount_out,
            base_token_program@,
            quote_token_program@,
            protocol_fee_recipient@,
        );
        assert(ix.data@ =~= expected->0.data);
    }
    proof {
        crate::idl::law_swap_sell_accounts_in_idl_order(user@, pool@, *pool_data, base_amount_in, min_quote_amount_out, base_token_program@, quote_token_program@, protocol_fee_recipient@);
    }
    proof {
        lemma_u64_le_roundtrip(base_amount_in);
        lemma_u64_le_roundtrip(min_quote_amount_out);
        assert(ix.data@.subrange(0, 8) =~= method_discriminator(METHOD_SELL@));
        assert(ix.data@.subrange(8, 16) =~= u64_le(base_amount_in));
        assert(ix.data@.subrange(16, 24) =~= u64_le(min_quote_amount_out));
    }
    Some(ix)
}

/// A buy's arguments read back from its data: after the 8-byte
/// discriminator, the token amount and the SOL limit as little-endian
/// `u64`s, then a zero byte; 25 bytes in all.
pub proof fn law_buy_arguments_read_back(
    user: Seq<u8>,
    mint: Seq<u8>,
    amount: u64,
    max_sol_cost: u64,
    creator: Seq<u8>,
    token_program: Seq<u8>,
    fee_recipient: Seq<u8>,
)
    requires
        buy_ix_view(user, mint, amount, max_sol_cost, creator, token_program, fee_recipient) is Some,
    ensures
        ({
            let d = buy_ix_view(user, mint, amount, max_sol_cost, creator, token_program, fee_recipient)->0.data;
            &&& d.len() == 25
            &&& d.subrange(0, 8) == method_discriminator(METHOD_BUY@)
            &&& le_u64(d.subrange(8, 16)) == amount
            &&& le_u64(d.subrange(16, 24)) == max_sol_cost
            &&& d[24] == 0
        }),
{
    let d = buy_ix_view(user, mint, amount, max_sol_cost, creator, token_program, fee_recipient)->0.data;
    assert(d.subrange(0, 8) =~= method_discriminator(METHOD_BUY@));
    assert(d.subrange(8, 16) =~= u64_le(amount));
    assert(d.subrange(16, 24) =~= u64_le(max_sol_cost));
    lemma_u64_le_roundtrip(amount);
    lemma_u64_le_roundtrip(max_sol_cost);
}

/// A sell's arguments read back from its data: after the 8-byte
/// discriminator, the token amount and the minimum SOL output as
/// little-endian `u64`s; 24 bytes in all.
pub proof fn law_sell_arguments_read_back(
    user: Seq<u8>,
    mint: Seq<u8>,
    amount: u64,
    min_sol_output: u64,
    creator: Seq<u8>,
    token_program: Seq<u8>,
    fee_recipient: Seq<u8>,
)
    requires
        sell_ix_view(user, mint, amount, min_sol_output, creator, token_program, fee_recipient) is Some,
    ensures
        ({
            let d = sell_ix_view(user, mint, amount, min_sol_output, creator, token_program, fee_recipient)->0.data;
            &&& d.len() == 24
            &&& d.subrange(0, 8) == method_discriminator(METHOD_SELL@)
            &&& le_u64(d.subrange(8, 16)) == amount
            &&& le_u64(d.subrange(16, 24)) == min_sol_output
        }),
{
    let d = sell_ix_view(user, mint, amount, min_sol_output, creator, token_program, fee_recipient)->0.data;
    assert(d.subrange(0, 8) =~= method_discriminator(METHOD_SELL@));
    assert(d.subrange(8, 16) =~= u64_le(amount));
    assert(d.subrange(16, 24) =~= u64_le(min_sol_output));
    lemma_u64_le_roundtrip(amount);
    lemma_u64_le_roundtrip(min_sol_output);
}

} // verus!
