//! The instruction lists of token-creation transactions.

use vstd::prelude::*;
use vstd::string::StringSliceAdditionalSpecFns;
use crate::instruction::{Instruction, InstructionView, instructions_view};
use crate::instructions::{build_create_ix, build_create_v2_ix, create_ix_view, create_v2_ix_view};
use crate::outside::set_compute_unit_limit;
use crate::pubkey::Pubkey;
use crate::signer::cu_limit_view;

verus! {

/// Compute unit limit of a legacy create transaction.
pub const LEGACY_CREATE_CU_LIMIT: u32 = 200_000;

/// Compute unit limit of a `create_v2` transaction.
pub const CREATE_V2_CU_LIMIT: u32 = 300_000;

/// Whether an optional instruction list is the compute-unit limit followed
/// by the expected create instruction, present exactly when it is.
pub open spec fn create_listed(r: Option<Vec<Instruction>>, units: u32, expected: Option<InstructionView>) -> bool {
    match r {
        Some(ixs) => expected matches Some(ix) && instructions_view(ixs@) == seq![cu_limit_view(units), ix],
        None => expected is None,
    }
}

/// The instructions of a legacy create transaction: a compute-unit limit
/// of `LEGACY_CREATE_CU_LIMIT`, then the `create` instruction.
pub fn create_transaction_instructions(
    user: &Pubkey,
    mint: &Pubkey,
    name: &str,
    symbol: &str,
    uri: &str,
) -> (r: Option<Vec<Instruction>>)
    ensures
        create_listed(
            r,
            LEGACY_CREATE_CU_LIMIT,
            create_ix_view(user@, mint@, name.spec_bytes(), symbol.spec_bytes(), uri.spec_bytes()),
        ),
{
    match build_create_ix(user, mint, name, symbol, uri) {
        Some(ix) => {
            let limit = set_compute_unit_limit(LEGACY_CREATE_CU_LIMIT);
            let ixs = vec![limit, ix];
            assert(instructions_view(ixs@) =~= seq![cu_limit_view(LEGACY_CREATE_CU_LIMIT), ixs@[1]@]);
            Some(ixs)
        },
        None => None,
    }
}

/// The instructions of a `create_v2` transaction: a compute-unit limit of
/// `CREATE_V2_CU_LIMIT`, then the `create_v2` instruction.
pub fn create_v2_transaction_instructions(
    user: &Pubkey,
    mint: &Pubkey,
    name: &str,
    symbol: &str,
    uri: &str,
    token_program: &Pubkey,
    is_mayhem_mode: bool,
    is_cashback_enabled: bool,
) -> (r: Option<Vec<Instruction>>)
    ensures
        create_listed(
            r,
            CREATE_V2_CU_LIMIT,
            create_v2_ix_view(
                user@,
                mint@,
                name.spec_bytes(),
                symbol.spec_bytes(),
                uri.spec_bytes(),
                is_mayhem_mode,
                is_cashback_enabled,
            ),
        ),
{
    match build_create_v2_ix(
        user,
        mint,
        name,
        symbol,
        uri,
        token_program,
        is_mayhem_mode,
        is_cashback_enabled,
    ) {
        Some(ix) => {
            let limit = set_compute_unit_limit(CREATE_V2_CU_LIMIT);
            let ixs = vec![limit, ix];
            assert(instructions_view(ixs@) =~= seq![cu_limit_view(CREATE_V2_CU_LIMIT), ixs@[1]@]);
            Some(ixs)
        },
        None => None,
    }
}

} // verus!
