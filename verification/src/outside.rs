//! The calls into the Solana SDK, SPL and hashing crates that several
//! modules share, with the contracts the rest of the library relies on.
//! Nothing here is proved: each item states what the outside crate's source
//! shows. (Calls used by one module only stand in that module.)

use vstd::prelude::*;
use crate::bytes::{u32_le, u64_le};
use crate::constants::{
    ASSOCIATED_TOKEN_PROGRAM_ID, COMPUTE_BUDGET_PROGRAM_ID, SPL_TOKEN_PROGRAM_ID, SYSTEM_PROGRAM_ID,
};
use crate::instruction::{AccountMeta, Instruction, InstructionView, writable};
use crate::pubkey::Pubkey;

verus! {

/// The SHA-256 digest of a byte string.
pub uninterp spec fn sha256(data: Seq<u8>) -> Seq<u8>;

/// `sha2::Sha256::digest`: the 32-byte SHA-256 digest of `data`. The
/// contract names the digest and says nothing of its value.
#[verifier::external_body]
pub(crate) fn sha256_digest(data: &[u8]) -> (h: [u8; 32])
    ensures
        h@ == sha256(data@),
{
    <sha2::Sha256 as sha2::Digest>::digest(data).into()
}

/// The outcome of the program-derived-address search for `seeds` under
/// `program_id`: the first bump seed, from 255 down to 1, whose address is
/// off the ed25519 curve, with that address; or nothing.
pub uninterp spec fn program_address(seeds: Seq<Seq<u8>>, program_id: Seq<u8>) -> Option<
    (Seq<u8>, u8),
>;

/// The byte strings held by a list of seeds.
pub open spec fn seeds_view(seeds: Seq<Vec<u8>>) -> Seq<Seq<u8>> {
    seeds.map_values(|s: Vec<u8>| s@)
}

/// `solana_sdk::pubkey::Pubkey::try_find_program_address`: the derived
/// address and bump seed, or `None` when no bump seed gives an address off
/// the curve or the seeds are too many or too long. The contract names the
/// outcome; which seeds succeed is not stated.
#[verifier::external_body]
pub(crate) fn try_find_program_address(seeds: &Vec<Vec<u8>>, program_id: &Pubkey) -> (r: Option<
    (Pubkey, u8),
>)
    ensures
        r is Some <==> program_address(seeds_view(seeds@), program_id@) is Some,
        r matches Some(p) ==> program_address(seeds_view(seeds@), program_id@) == Some(
            (p.0@, p.1),
        ),
{
    let refs: Vec<&[u8]> = seeds.iter().map(|s| s.as_slice()).collect();
    let program = solana_sdk::pubkey::Pubkey::new_from_array(program_id.0);
    solana_sdk::pubkey::Pubkey::try_find_program_address(&refs, &program).map(
        |(k, bump)| (Pubkey(k.to_bytes()), bump),
    )
}

/// `spl_token::id()`: the SPL Token program id, `TokenkegQ…`.
#[verifier::external_body]
pub(crate) fn spl_token_program_id() -> (k: Pubkey)
    ensures
        k@ == SPL_TOKEN_PROGRAM_ID@,
{
    Pubkey(spl_token::id().to_bytes())
}

/// `spl_associated_token_account::id()`: the Associated Token Account
/// program id, `ATokenGP…`.
#[verifier::external_body]
pub(crate) fn associated_token_program_id() -> (k: Pubkey)
    ensures
        k@ == ASSOCIATED_TOKEN_PROGRAM_ID@,
{
    Pubkey(spl_associated_token_account::id().to_bytes())
}

/// `ComputeBudgetInstruction::set_compute_unit_limit`: an instruction to the
/// compute budget program with no accounts and data `[2]` followed by the
/// little-endian `units`.
#[verifier::external_body]
pub(crate) fn set_compute_unit_limit(units: u32) -> (ix: Instruction)
    ensures
        ix@ == (InstructionView {
            program: COMPUTE_BUDGET_PROGRAM_ID@,
            accounts: Seq::empty(),
            data: seq![2u8] + u32_le(units),
        }),
{
    let ix = solana_sdk::compute_budget::ComputeBudgetInstruction::set_compute_unit_limit(units);
    Instruction {
        program_id: Pubkey(ix.program_id.to_bytes()),
        accounts: ix.accounts.iter().map(
            |m| AccountMeta { pubkey: Pubkey(m.pubkey.to_bytes()), is_signer: m.is_signer, is_writable: m.is_writable },
        ).collect(),
        data: ix.data,
    }
}

/// `ComputeBudgetInstruction::set_compute_unit_price`: an instruction to the
/// compute budget program with no accounts and data `[3]` followed by the
/// little-endian `micro_lamports`.
#[verifier::external_body]
pub(crate) fn set_compute_unit_price(micro_lamports: u64) -> (ix: Instruction)
    ensures
        ix@ == (InstructionView {
            program: COMPUTE_BUDGET_PROGRAM_ID@,
            accounts: Seq::empty(),
            data: seq![3u8] + u64_le(micro_lamports),
        }),
{
    let ix = solana_sdk::compute_budget::ComputeBudgetInstruction::set_compute_unit_price(
        micro_lamports,
    );
    Instruction {
        program_id: Pubkey(ix.program_id.to_bytes()),
        accounts: ix.accounts.iter().map(
            |m| AccountMeta { pubkey: Pubkey(m.pubkey.to_bytes()), is_signer: m.is_signer, is_writable: m.is_writable },
        ).collect(),
        data: ix.data,
    }
}

/// `solana_sdk::system_instruction::transfer`: a System program instruction
/// with the payer (writable, signer) and the recipient (writable), and the
/// bincode encoding of `Transfer { lamports }`: the variant index 2 as a
/// little-endian `u32`, then the little-endian `lamports`.
#[verifier::external_body]
#[allow(deprecated)]
pub(crate) fn system_transfer(from: &Pubkey, to: &Pubkey, lamports: u64) -> (ix: Instruction)
    ensures
        ix@ == (InstructionView {
            program: SYSTEM_PROGRAM_ID@,
            accounts: seq![writable(from@, true), writable(to@, false)],
            data: u32_le(2) + u64_le(lamports),
        }),
{
    let from_key = solana_sdk::pubkey::Pubkey::new_from_array(from.0);
    let to_key = solana_sdk::pubkey::Pubkey::new_from_array(to.0);
    let ix = solana_sdk::system_instruction::transfer(&from_key, &to_key, lamports);
    Instruction {
        program_id: Pubkey(ix.program_id.to_bytes()),
        accounts: ix.accounts.iter().map(
            |m| AccountMeta { pubkey: Pubkey(m.pubkey.to_bytes()), is_signer: m.is_signer, is_writable: m.is_writable },
        ).collect(),
        data: ix.data,
    }
}

} // verus!
