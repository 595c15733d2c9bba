//! Associated token accounts and token program detection.

use vstd::prelude::*;
use crate::bytes::{le_u64, read_u64_le};
use crate::constants::{ASSOCIATED_TOKEN_PROGRAM_ID, TOKEN_2022_PROGRAM_ID};
use crate::outside::{associated_token_program_id, program_address, seeds_view, try_find_program_address};
use crate::pda::pda_key;
use crate::pubkey::Pubkey;
use crate::text::{parse_u64, parsed_u64};

verus! {

/// The associated token account of `owner` for `mint` under `token_program`:
/// the address derived from `[owner, token_program, mint]` under the
/// Associated Token Account program.
pub open spec fn ata_key(owner: Seq<u8>, mint: Seq<u8>, token_program: Seq<u8>) -> Option<Seq<u8>> {
    pda_key(seq![owner, token_program, mint], ASSOCIATED_TOKEN_PROGRAM_ID@)
}

/// The associated token account of `owner` for `mint` under `token_program`,
/// or `None` when its derivation finds no bump seed.
pub fn get_ata(owner: &Pubkey, mint: &Pubkey, token_program: &Pubkey) -> (r: Option<Pubkey>)
    ensures
        match r {
            Some(k) => ata_key(owner@, mint@, token_program@) == Some(k@),
            None => ata_key(owner@, mint@, token_program@) is None,
        },
        match r {
            Some(k) => pda_key(seq![owner@, token_program@, mint@], ASSOCIATED_TOKEN_PROGRAM_ID@) == Some(k@),
            None => pda_key(seq![owner@, token_program@, mint@], ASSOCIATED_TOKEN_PROGRAM_ID@) is None,
        },
{
    let seeds = vec![owner.to_vec(), token_program.to_vec(), mint.to_vec()];
    assert(seeds_view(seeds@) =~= seq![owner@, token_program@, mint@]);
    let program = associated_token_program_id();
    match try_find_program_address(&seeds, &program) {
        Some(p) => Some(p.0),
        None => None,
    }
}

/// Whether `program_id` is the Token-2022 program.
pub fn is_token_2022(program_id: &Pubkey) -> (r: bool)
    ensures
        r == (program_id@ == TOKEN_2022_PROGRAM_ID@),
{
    program_id.equals(&Pubkey(TOKEN_2022_PROGRAM_ID))
}

/// Size of an SPL Token account; Token-2022 accounts may be longer
/// (extensions).
pub const TOKEN_ACCOUNT_LEN: u64 = 165;

/// The data-size filter of a token-account query under `program_id`:
/// SPL Token accounts have a fixed size, Token-2022 accounts are not
/// filtered by size.
pub fn token_account_size_filter(program_id: &Pubkey) -> (r: Option<u64>)
    ensures
        r == (if program_id@ == TOKEN_2022_PROGRAM_ID@ { None::<u64> } else { Some(TOKEN_ACCOUNT_LEN) }),
{
    if is_token_2022(program_id) {
        None
    } else {
        Some(TOKEN_ACCOUNT_LEN)
    }
}

/// The holding recorded in a token account's data: the mint (bytes 0..32)
/// and the raw amount (little-endian at 64..72), when the data is long
/// enough and the amount is not zero.
pub open spec fn holding_of(data: Seq<u8>) -> Option<(Seq<u8>, u64)> {
    if data.len() >= 72 && le_u64(data.subrange(64, 72)) > 0 {
        Some((data.subrange(0, 32), le_u64(data.subrange(64, 72))))
    } else {
        None
    }
}

/// The holdings of a list of token accounts, in order, skipping accounts
/// without one.
pub open spec fn holdings_of(accounts: Seq<Seq<u8>>) -> Seq<(Seq<u8>, u64)>
    decreases accounts.len(),
{
    if accounts.len() == 0 {
        Seq::empty()
    } else {
        let rest = holdings_of(accounts.drop_last());
        match holding_of(accounts.last()) {
            Some(h) => rest.push(h),
            None => rest,
        }
    }
}

/// The view of a list of (mint, amount) pairs.
pub open spec fn pairs_view(v: Seq<(Pubkey, u64)>) -> Seq<(Seq<u8>, u64)> {
    v.map_values(|p: (Pubkey, u64)| (p.0@, p.1))
}

/// The view of a list of account data buffers.
pub open spec fn accounts_view(v: Seq<Vec<u8>>) -> Seq<Seq<u8>> {
    v.map_values(|a: Vec<u8>| a@)
}

/// Reads the holding of one token account.
pub fn token_holding(data: &[u8]) -> (r: Option<(Pubkey, u64)>)
    ensures
        match r {
            Some(p) => holding_of(data@) == Some((p.0@, p.1)),
            None => holding_of(data@) is None,
        },
{
    if data.len() >= 72 {
        let amount = read_u64_le(data, 64);
        if amount > 0 {
            let mint = Pubkey::read_at(data, 0);
            Some((mint, amount))
        } else {
            None
        }
    } else {
        None
    }
}

/// Appends to `holdings` the holding of each account that has one, in order.
pub fn collect_holdings(accounts: &Vec<Vec<u8>>, holdings: &mut Vec<(Pubkey, u64)>)
    ensures
        pairs_view(final(holdings)@) == pairs_view(old(holdings)@) + holdings_of(
            accounts_view(accounts@),
        ),
{
    let ghost start = pairs_view(holdings@);
    let n = accounts.len();
    let mut i: usize = 0;
    while i < n
        invariant
            n == accounts@.len(),
            i <= n,
            pairs_view(holdings@) == start + holdings_of(accounts_view(accounts@.subrange(0, i as int))),
        decreases n - i,
    {
        let ghost before = holdings@;
        proof {
            let prefix = accounts_view(accounts@.subrange(0, i + 1));
            assert(prefix.drop_last() =~= accounts_view(accounts@.subrange(0, i as int)));
            assert(prefix.last() == accounts@[i as int]@);
        }
        match token_holding(accounts[i].as_slice()) {
            Some(h) => {
                holdings.push(h);
                proof {
                    assert(pairs_view(holdings@) =~= pairs_view(before).push((h.0@, h.1)));
                }
            },
            None => {},
        }
        i = i + 1;
    }
    assert(accounts@.subrange(0, n as int) =~= accounts@);
}

/// The raw balance in a token-balance reply, whose amount is decimal text;
/// text that is not a `u64` counts as an empty balance.
pub fn balance_from_reply(amount: &str) -> (r: u64)
    ensures
        r == match parsed_u64(amount@) {
            Some(v) => v,
            None => 0,
        },
{
    match parse_u64(amount) {
        Some(v) => v,
        None => 0,
    }
}

} // verus!
