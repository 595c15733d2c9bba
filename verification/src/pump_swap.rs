//! PumpSwap pool accounts and constant-product pricing.

use vstd::prelude::*;
use crate::bytes::{le_u16, le_u64, read_u16_le, read_u64_le, starts_with};
use crate::constants::PUMP_SWAP_TOTAL_FEE_BPS;
use crate::pubkey::Pubkey;
use crate::text::{decimal, push_decimal};
use vstd::string::StringExecFns;

verus! {

/// On-chain PumpSwap pool account state (from the pump_amm IDL).
#[derive(Clone, Copy, PartialEq, Eq, Debug)]
pub struct SwapPool {
    pub pool_bump: u8,
    pub index: u16,
    pub creator: Pubkey,
    pub base_mint: Pubkey,
    pub quote_mint: Pubkey,
    pub lp_mint: Pubkey,
    pub pool_base_token_account: Pubkey,
    pub pool_quote_token_account: Pubkey,
    pub lp_supply: u64,
    pub coin_creator: Pubkey,
    pub is_mayhem_mode: bool,
    pub is_cashback_coin: bool,
}

/// Why a pool account was refused.
#[derive(Clone, Copy, PartialEq, Eq, Debug, Structural)]
pub enum PoolError {
    /// "pool account data too short for discriminator"
    DiscriminatorTooShort,
    /// "invalid pool discriminator"
    InvalidDiscriminator,
    /// "pool data too short: {len} bytes (need >= {min})"
    DataTooShort { len: usize, min: usize },
}

/// The message of a pool error.
pub open spec fn pool_error_text(e: PoolError) -> Seq<char> {
    match e {
        PoolError::DiscriminatorTooShort => "pool account data too short for discriminator"@,
        PoolError::InvalidDiscriminator => "invalid pool discriminator"@,
        PoolError::DataTooShort { len, min } => "pool data too short: "@ + decimal(len as nat)
            + " bytes (need >= "@ + decimal(min as nat) + ")"@,
    }
}

impl PoolError {
    /// The error's message.
    pub fn message(&self) -> (s: String)
        ensures
            s@ == pool_error_text(*self),
    {
        match self {
            PoolError::DiscriminatorTooShort => "pool account data too short for discriminator".to_owned(),
            PoolError::InvalidDiscriminator => "invalid pool discriminator".to_owned(),
            PoolError::DataTooShort { len, min } => {
                let mut s = "pool data too short: ".to_owned();
                push_decimal(&mut s, *len as u64);
                s.append(" bytes (need >= ");
                push_decimal(&mut s, *min as u64);
                s.append(")");
                s
            },
        }
    }
}

/// Anchor account discriminator of a pool.
pub const POOL_DISCRIMINATOR: [u8; 8] = [241, 154, 109, 4, 17, 177, 109, 188];

/// Length of the pool layout after the discriminator:
/// u8 + u16 + 6 addresses + u64 + address + 2 flags.
pub const POOL_MIN_DATA_LEN: usize = 237;

/// Whether `p` holds the fields of the pool layout in `data`
/// (the account data after its discriminator).
pub open spec fn pool_decodes(p: SwapPool, data: Seq<u8>) -> bool {
    &&& p.pool_bump == data[0]
    &&& p.index == le_u16(data.subrange(1, 3))
    &&& p.creator@ == data.subrange(3, 35)
    &&& p.base_mint@ == data.subrange(35, 67)
    &&& p.quote_mint@ == data.subrange(67, 99)
    &&& p.lp_mint@ == data.subrange(99, 131)
    &&& p.pool_base_token_account@ == data.subrange(131, 163)
    &&& p.pool_quote_token_account@ == data.subrange(163, 195)
    &&& p.lp_supply == le_u64(data.subrange(195, 203))
    &&& p.coin_creator@ == data.subrange(203, 235)
    &&& p.is_mayhem_mode == (data[235] != 0)
    &&& p.is_cashback_coin == (data[236] != 0)
}

/// Fee that PumpSwap keeps out of `amount`.
pub open spec fn swap_fee(amount: u64) -> int {
    amount as int * PUMP_SWAP_TOTAL_FEE_BPS as int / 10_000
}

/// Base tokens out of a pool with reserves `(base, quote)` for `sol_in` quote in,
/// after the fee: `floor(after_fee * base / (quote + after_fee))`.
pub open spec fn swap_buy_out(base: u64, quote: u64, sol_in: u64) -> int {
    let after_fee = sol_in as int - swap_fee(sol_in);
    (after_fee * base as int) / (quote as int + after_fee)
}

/// Quote out of a pool with reserves `(base, quote)` for `tokens_in` base in,
/// before the fee: `floor(tokens_in * quote / (base + tokens_in))`.
pub open spec fn swap_sell_gross(base: u64, quote: u64, tokens_in: u64) -> int {
    (tokens_in as int * quote as int) / (base as int + tokens_in as int)
}

/// `x * y / (z + x) <= y`: a constant-product quote never exceeds the reserve.
pub proof fn lemma_share_le_reserve(x: int, y: int, z: int)
    requires
        0 <= x,
        0 <= y,
        0 <= z,
        z + x > 0,
    ensures
        0 <= (x * y) / (z + x) <= y,
{
    assert(x * y <= (z + x) * y) by (nonlinear_arith)
        requires
            0 <= x,
            0 <= y,
            0 <= z,
    ;
    assert(0 <= x * y) by (nonlinear_arith)
        requires
            0 <= x,
            0 <= y,
    ;
    vstd::arithmetic::div_mod::lemma_div_is_ordered(x * y, (z + x) * y, z + x);
    vstd::arithmetic::div_mod::lemma_div_by_multiple(y, z + x);
    assert((z + x) * y == y * (z + x)) by (nonlinear_arith);
    vstd::arithmetic::div_mod::lemma_div_pos_is_pos(x * y, z + x);
}

/// The product of two `u64` values fits in a `u128`.
pub proof fn lemma_mul_u64_fits_u128(a: u64, b: u64)
    ensures
        0 <= a as int * b as int <= u128::MAX,
{
    assert(0 <= a as int * b as int <= 0xffff_ffff_ffff_ffff * 0xffff_ffff_ffff_ffff) by (
    nonlinear_arith)
        requires
            a <= 0xffff_ffff_ffff_ffffu64,
            b <= 0xffff_ffff_ffff_ffffu64,
    ;
}

impl SwapPool {
    /// Checks the 8-byte pool discriminator at the start of the account data.
    pub fn validate_discriminator(account_data: &[u8]) -> (r: Result<(), PoolError>)
        ensures
            account_data@.len() < 8 ==> r == Err::<(), PoolError>(PoolError::DiscriminatorTooShort),
            account_data@.len() >= 8 && account_data@.subrange(0, 8) != POOL_DISCRIMINATOR@
                ==> r == Err::<(), PoolError>(PoolError::InvalidDiscriminator),
            account_data@.len() >= 8 && account_data@.subrange(0, 8) == POOL_DISCRIMINATOR@
                ==> r == Ok::<(), PoolError>(()),
    {
        if account_data.len() < 8 {
            return Err(PoolError::DiscriminatorTooShort);
        }
        if !starts_with(account_data, &POOL_DISCRIMINATOR) {
            return Err(PoolError::InvalidDiscriminator);
        }
        Ok(())
    }

    /// Decodes the pool layout from the account data after its discriminator.
    pub fn deserialize(data: &[u8]) -> (r: Result<SwapPool, PoolError>)
        ensures
            data@.len() < POOL_MIN_DATA_LEN ==> r == Err::<SwapPool, PoolError>(
                PoolError::DataTooShort { len: data@.len() as usize, min: POOL_MIN_DATA_LEN },
            ),
            data@.len() >= POOL_MIN_DATA_LEN ==> (r matches Ok(p) && pool_decodes(p, data@)),
    {
        if data.len() < POOL_MIN_DATA_LEN {
            return Err(PoolError::DataTooShort { len: data.len(), min: POOL_MIN_DATA_LEN });
        }
        let pool_bump = data[0];
        let index = read_u16_le(data, 1);
        let creator = Pubkey::read_at(data, 3);
        let base_mint = Pubkey::read_at(data, 35);
        let quote_mint = Pubkey::read_at(data, 67);
        let lp_mint = Pubkey::read_at(data, 99);
        let pool_base_token_account = Pubkey::read_at(data, 131);
        let pool_quote_token_account = Pubkey::read_at(data, 163);
        let lp_supply = read_u64_le(data, 195);
        let coin_creator = Pubkey::read_at(data, 203);
        let is_mayhem_mode = data.len() > 235 && data[235] != 0;
        let is_cashback_coin = data.len() > 236 && data[236] != 0;
        Ok(SwapPool {
            pool_bump,
            index,
            creator,
            base_mint,
            quote_mint,
            lp_mint,
            pool_base_token_account,
            pool_quote_token_account,
            lp_supply,
            coin_creator,
            is_mayhem_mode,
            is_cashback_coin,
        })
    }

    /// Constant-product buy: `(tokens_out, fee)` for `sol_in` lamports in,
    /// given the pool's base and quote reserves.
    pub fn calculate_buy(&self, base_reserves: u64, quote_reserves: u64, sol_in: u64) -> (r:
        Result<(u64, u64), PoolError>)
        requires
            sol_in as int * PUMP_SWAP_TOTAL_FEE_BPS as int <= u64::MAX,
            quote_reserves as int + (sol_in as int - swap_fee(sol_in)) > 0,
        ensures
            r matches Ok((out, fee)) && out == swap_buy_out(base_reserves, quote_reserves, sol_in)
                && fee == swap_fee(sol_in),
    {
        let fee = sol_in * PUMP_SWAP_TOTAL_FEE_BPS / 10_000;
        let sol_after_fee = sol_in - fee;
        proof {
            lemma_mul_u64_fits_u128(sol_after_fee, base_reserves);
            lemma_share_le_reserve(sol_after_fee as int, base_reserves as int, quote_reserves as int);
        }
        let numerator = (sol_after_fee as u128) * (base_reserves as u128);
        let denominator = (quote_reserves as u128) + (sol_after_fee as u128);
        let tokens_out = (numerator / denominator) as u64;
        Ok((tokens_out, fee))
    }

    /// Constant-product sell: `(sol_out, fee)` for `tokens_in` base tokens in,
    /// given the pool's base and quote reserves.
    pub fn calculate_sell(&self, base_reserves: u64, quote_reserves: u64, tokens_in: u64) -> (r:
        Result<(u64, u64), PoolError>)
        requires
            base_reserves as int + tokens_in as int > 0,
            swap_sell_gross(base_reserves, quote_reserves, tokens_in) * PUMP_SWAP_TOTAL_FEE_BPS as int
                <= u64::MAX,
        ensures
            ({
                let gross = swap_sell_gross(base_reserves, quote_reserves, tokens_in);
                r matches Ok((out, fee)) && fee == gross * PUMP_SWAP_TOTAL_FEE_BPS as int / 10_000
                    && out == gross - fee
            }),
    {
        proof {
            lemma_mul_u64_fits_u128(tokens_in, quote_reserves);
            lemma_share_le_reserve(tokens_in as int, quote_reserves as int, base_reserves as int);
        }
        let numerator = (tokens_in as u128) * (quote_reserves as u128);
        let denominator = (base_reserves as u128) + (tokens_in as u128);
        let sol_out_before_fee = (numerator / denominator) as u64;
        let fee = sol_out_before_fee * PUMP_SWAP_TOTAL_FEE_BPS / 10_000;
        let sol_out = sol_out_before_fee - fee;
        Ok((sol_out, fee))
    }
}

/// A PumpSwap buy never lowers the product of the reserves: after paying
/// the fee-reduced `sol_in` into the quote reserve and taking the tokens
/// out of the base reserve, the product is at least what it was.
pub proof fn law_swap_buy_keeps_product(base: u64, quote: u64, sol_in: u64)
    requires
        quote as int + (sol_in as int - swap_fee(sol_in)) > 0,
    ensures
        (base as int - swap_buy_out(base, quote, sol_in)) * (quote as int + (sol_in as int
            - swap_fee(sol_in))) >= base as int * quote as int,
        0 <= swap_buy_out(base, quote, sol_in) <= base,
{
    let a = sol_in as int - swap_fee(sol_in);
    let x = a * base as int;
    let d = quote as int + a;
    let out = swap_buy_out(base, quote, sol_in);
    assert(0 <= a);
    lemma_share_le_reserve(a, base as int, quote as int);
    vstd::arithmetic::div_mod::lemma_fundamental_div_mod(x, d);
    vstd::arithmetic::div_mod::lemma_mod_pos_bound(x, d);
    assert(d * out <= x);
    assert((base as int - out) * d >= base as int * quote as int) by (nonlinear_arith)
        requires
            d * out <= x,
            x == a * base as int,
            d == quote as int + a,
    ;
}

/// A PumpSwap sell never lowers the product of the reserves: after adding
/// `tokens_in` to the base reserve and taking the gross quote out, the
/// product is at least what it was; the fee and the net output add up to
/// the gross output.
pub proof fn law_swap_sell_keeps_product(base: u64, quote: u64, tokens_in: u64)
    requires
        base as int + tokens_in as int > 0,
    ensures
        (base as int + tokens_in as int) * (quote as int - swap_sell_gross(base, quote, tokens_in))
            >= base as int * quote as int,
        0 <= swap_sell_gross(base, quote, tokens_in) * PUMP_SWAP_TOTAL_FEE_BPS as int / 10_000
            <= swap_sell_gross(base, quote, tokens_in),
{
    let x = tokens_in as int * quote as int;
    let d = base as int + tokens_in as int;
    let g = swap_sell_gross(base, quote, tokens_in);
    lemma_share_le_reserve(tokens_in as int, quote as int, base as int);
    vstd::arithmetic::div_mod::lemma_fundamental_div_mod(x, d);
    vstd::arithmetic::div_mod::lemma_mod_pos_bound(x, d);
    assert(d * g <= x);
    assert(d * (quote as int - g) >= base as int * quote as int) by (nonlinear_arith)
        requires
            d * g <= x,
            x == tokens_in as int * quote as int,
            d == base as int + tokens_in as int,
    ;
}

/// Buying on a PumpSwap pool and selling the tokens straight back returns,
/// before the sell fee, at most the SOL that entered the pool after the buy
/// fee: on the pool the buy leaves behind (base down by the tokens out,
/// quote up by the fee-reduced `sol_in`), the gross output of the sale is no
/// more than that.
pub proof fn law_swap_buy_then_sell_loses(base: u64, quote: u64, sol_in: u64)
    requires
        base > 0,
        quote as int + (sol_in as int - swap_fee(sol_in)) > 0,
        quote as int + (sol_in as int - swap_fee(sol_in)) <= u64::MAX,
    ensures
        ({
            let a = sol_in as int - swap_fee(sol_in);
            let out = swap_buy_out(base, quote, sol_in);
            swap_sell_gross((base - out) as u64, (quote + a) as u64, out as u64) <= a
        }),
{
    law_swap_buy_keeps_product(base, quote, sol_in);
    let a = sol_in as int - swap_fee(sol_in);
    let x = a * base as int;
    let d = quote as int + a;
    let out = swap_buy_out(base, quote, sol_in);
    assert(0 <= a);
    vstd::arithmetic::div_mod::lemma_fundamental_div_mod(x, d);
    vstd::arithmetic::div_mod::lemma_mod_pos_bound(x, d);
    assert(d * out <= x);
    assert((base - out) as u64 as int + out == base as int);
    let y = out * d;
    assert(y <= a * base as int) by (nonlinear_arith)
        requires
            d * out <= x,
            x == a * base as int,
            y == out * d,
    ;
    assert(0 <= y) by (nonlinear_arith)
        requires
            y == out * d,
            out >= 0,
            d > 0,
    ;
    vstd::arithmetic::div_mod::lemma_div_is_ordered(y, a * base as int, base as int);
    vstd::arithmetic::div_mod::lemma_div_by_multiple(a, base as int);
    assert(a * base as int == base as int * a) by (nonlinear_arith);
    assert(swap_sell_gross((base - out) as u64, (quote + a) as u64, out as u64) == y / (base as int));
}

} // verus!
