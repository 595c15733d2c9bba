//! Program ids, well-known accounts, derivation seeds and protocol numbers.

use vstd::prelude::*;

verus! {

/// Pump bonding-curve program. (`6EF8rrecthR5Dkzon8Nwu78hRvfCKubJ14M5uBEwF6P`)
pub const PUMP_PROGRAM_ID: [u8; 32] = [1, 86, 224, 246, 147, 102, 90, 207, 68, 219, 21, 104, 191, 23, 91, 170, 81, 137, 203, 151, 245, 210, 255, 59, 101, 93, 43, 182, 253, 109, 24, 176];

/// PumpSwap AMM program. (`pAMMBay6oceH9fJKBRHGP5D4bD4sWpmSwMn52FMfXEA`)
pub const PUMP_SWAP_PROGRAM_ID: [u8; 32] = [12, 20, 222, 252, 130, 94, 198, 118, 148, 37, 8, 24, 187, 101, 64, 101, 244, 41, 141, 49, 86, 213, 113, 180, 212, 248, 9, 12, 24, 233, 168, 99];

/// Pump fees program. (`pfeeUxB6jkeY1Hxd7CsFCAjcbHA9rWtchMGdZ6VojVZ`)
pub const PUMP_FEES_PROGRAM_ID: [u8; 32] = [12, 53, 255, 169, 5, 90, 142, 86, 141, 168, 247, 188, 7, 86, 21, 39, 76, 241, 201, 44, 164, 31, 64, 0, 156, 81, 106, 164, 20, 194, 124, 112];

/// Token-2022 program. (`TokenzQdBNbLqP5VEhdkAS6EPFLC1PHnBqCXEpPxuEb`)
pub const TOKEN_2022_PROGRAM_ID: [u8; 32] = [6, 221, 246, 225, 238, 117, 143, 222, 24, 66, 93, 188, 228, 108, 205, 218, 182, 26, 252, 77, 131, 185, 13, 39, 254, 189, 249, 40, 216, 161, 139, 252];

/// Mayhem program: derivation domain of global_params, sol_vault and mayhem_state. (`MAyhSmzXzV1pTf7LsNkrNwkWKTo4ougAJ1PPg47MD4e`)
pub const MAYHEM_PROGRAM_ID: [u8; 32] = [5, 42, 229, 215, 167, 218, 167, 36, 166, 234, 176, 167, 41, 84, 145, 133, 90, 212, 160, 103, 22, 96, 103, 76, 78, 3, 69, 89, 128, 61, 101, 163];

/// Pump Global account. (`4wTV1YmiEkRvAtNtsSGPtUrqRYQMe5SKy2uB4Jjaxnjf`)
pub const PUMP_GLOBAL: [u8; 32] = [58, 134, 94, 105, 238, 15, 84, 128, 202, 188, 246, 99, 87, 228, 220, 47, 24, 213, 141, 69, 193, 234, 116, 137, 251, 55, 35, 217, 121, 60, 114, 166];

/// Default Pump fee recipient. (`62qc2CNXwrYqQScmEdiZFFAnJR262PxWEuNQtxfafNgV`)
pub const FEE_RECIPIENT: [u8; 32] = [74, 194, 248, 208, 221, 92, 188, 151, 227, 40, 156, 25, 124, 181, 6, 42, 84, 243, 217, 86, 185, 206, 110, 81, 21, 249, 101, 103, 170, 92, 179, 230];

/// Pump event authority. (`Ce6TQqeHC9p8KetsN6JsjHK7UTZk7nasjjnr7XxXp9F1`)
pub const EVENT_AUTHORITY: [u8; 32] = [172, 241, 54, 235, 1, 252, 28, 78, 136, 61, 35, 200, 181, 132, 74, 181, 154, 55, 246, 106, 221, 87, 197, 233, 172, 59, 83, 224, 89, 211, 92, 100];

/// Wrapped SOL mint. (`So11111111111111111111111111111111111111112`)
pub const WSOL_MINT: [u8; 32] = [6, 155, 136, 87, 254, 171, 129, 132, 251, 104, 127, 99, 70, 24, 192, 53, 218, 196, 57, 220, 26, 235, 59, 85, 152, 160, 240, 0, 0, 0, 0, 1];

/// Default PumpSwap protocol fee recipient. (`62qc2CNXwrYqQScmEdiZFFAnJR262PxWEuNQtxfafNgV`)
pub const PROTOCOL_FEE_RECIPIENT: [u8; 32] = [74, 194, 248, 208, 221, 92, 188, 151, 227, 40, 156, 25, 124, 181, 6, 42, 84, 243, 217, 86, 185, 206, 110, 81, 21, 249, 101, 103, 170, 92, 179, 230];

/// System program. (`11111111111111111111111111111111`)
pub const SYSTEM_PROGRAM_ID: [u8; 32] = [0, 0, 0, 0, 0, 0, 0, 0, 0, 0, 0, 0, 0, 0, 0, 0, 0, 0, 0, 0, 0, 0, 0, 0, 0, 0, 0, 0, 0, 0, 0, 0];

/// Rent sysvar. (`SysvarRent111111111111111111111111111111111`)
pub const RENT_SYSVAR_ID: [u8; 32] = [6, 167, 213, 23, 25, 44, 92, 81, 33, 140, 201, 76, 61, 74, 241, 127, 88, 218, 238, 8, 155, 161, 253, 68, 227, 219, 217, 138, 0, 0, 0, 0];

/// Metaplex token-metadata program. (`metaqbxxUerdq28cj1RbAWkYQm3ybzjb6a8bt518x1s`)
pub const METAPLEX_TOKEN_METADATA_ID: [u8; 32] = [11, 112, 101, 177, 227, 209, 124, 69, 56, 157, 82, 127, 107, 4, 195, 205, 88, 184, 108, 115, 26, 160, 253, 181, 73, 182, 209, 188, 3, 248, 41, 70];

/// SPL Token program. (`TokenkegQfeZyiNwAJbNbGKPFXCWuBvf9Ss623VQ5DA`)
pub const SPL_TOKEN_PROGRAM_ID: [u8; 32] = [6, 221, 246, 225, 215, 101, 161, 147, 217, 203, 225, 70, 206, 235, 121, 172, 28, 180, 133, 237, 95, 91, 55, 145, 58, 140, 245, 133, 126, 255, 0, 169];

/// Associated Token Account program. (`ATokenGPvbdGVxr1b2hvZbsiqW5xWH25efTNsLJA8knL`)
pub const ASSOCIATED_TOKEN_PROGRAM_ID: [u8; 32] = [140, 151, 37, 143, 78, 36, 137, 241, 187, 61, 16, 41, 20, 142, 13, 131, 11, 90, 19, 153, 218, 255, 16, 132, 4, 142, 123, 216, 219, 233, 248, 89];

/// Compute budget program. (`ComputeBudget111111111111111111111111111111`)
pub const COMPUTE_BUDGET_PROGRAM_ID: [u8; 32] = [3, 6, 70, 111, 229, 33, 23, 50, 255, 236, 173, 186, 114, 195, 155, 231, 188, 140, 229, 187, 197, 247, 18, 107, 44, 67, 155, 58, 64, 0, 0, 0];

/// Seed `bonding-curve`.
pub const SEED_BONDING_CURVE: [u8; 13] = [98, 111, 110, 100, 105, 110, 103, 45, 99, 117, 114, 118, 101];

/// Seed `mint-authority`.
pub const SEED_MINT_AUTHORITY: [u8; 14] = [109, 105, 110, 116, 45, 97, 117, 116, 104, 111, 114, 105, 116, 121];

/// Seed `creator-vault`.
pub const SEED_CREATOR_VAULT: [u8; 13] = [99, 114, 101, 97, 116, 111, 114, 45, 118, 97, 117, 108, 116];

/// Seed `pool-authority`.
pub const SEED_POOL_AUTHORITY: [u8; 14] = [112, 111, 111, 108, 45, 97, 117, 116, 104, 111, 114, 105, 116, 121];

/// Seed `pool`.
pub const SEED_POOL: [u8; 4] = [112, 111, 111, 108];

/// Seed `global_config`.
pub const SEED_GLOBAL_CONFIG: [u8; 13] = [103, 108, 111, 98, 97, 108, 95, 99, 111, 110, 102, 105, 103];

/// Seed `creator_vault`.
pub const SEED_SWAP_CREATOR_VAULT: [u8; 13] = [99, 114, 101, 97, 116, 111, 114, 95, 118, 97, 117, 108, 116];

/// Seed `user_volume_accumulator`.
pub const SEED_USER_VOLUME_ACCUMULATOR: [u8; 23] = [117, 115, 101, 114, 95, 118, 111, 108, 117, 109, 101, 95, 97, 99, 99, 117, 109, 117, 108, 97, 116, 111, 114];

/// Seed `global-params`.
pub const SEED_GLOBAL_PARAMS: [u8; 13] = [103, 108, 111, 98, 97, 108, 45, 112, 97, 114, 97, 109, 115];

/// Seed `sol-vault`.
pub const SEED_SOL_VAULT: [u8; 9] = [115, 111, 108, 45, 118, 97, 117, 108, 116];

/// Seed `mayhem-state`.
pub const SEED_MAYHEM_STATE: [u8; 12] = [109, 97, 121, 104, 101, 109, 45, 115, 116, 97, 116, 101];

/// Seed `__event_authority`.
pub const SEED_EVENT_AUTHORITY: [u8; 17] = [95, 95, 101, 118, 101, 110, 116, 95, 97, 117, 116, 104, 111, 114, 105, 116, 121];

/// Seed `fee_config`.
pub const SEED_FEE_CONFIG: [u8; 10] = [102, 101, 101, 95, 99, 111, 110, 102, 105, 103];

/// Seed `global_volume_accumulator`.
pub const SEED_GLOBAL_VOLUME_ACCUMULATOR: [u8; 25] = [103, 108, 111, 98, 97, 108, 95, 118, 111, 108, 117, 109, 101, 95, 97, 99, 99, 117, 109, 117, 108, 97, 116, 111, 114];

/// Seed `metadata`.
pub const SEED_METADATA: [u8; 8] = [109, 101, 116, 97, 100, 97, 116, 97];

/// Decimals of every Pump token.
pub const TOKEN_DECIMALS: u8 = 6;

/// Bonding-curve trading fee, in basis points.
pub const BONDING_CURVE_FEE_BPS: u64 = 100;

/// Lamports in one SOL.
pub const LAMPORTS_PER_SOL: u64 = 1_000_000_000;

/// PumpSwap total fee, in basis points.
pub const PUMP_SWAP_TOTAL_FEE_BPS: u64 = 25;

} // verus!
