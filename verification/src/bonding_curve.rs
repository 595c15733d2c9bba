//! Pump bonding-curve accounts and their constant-product pricing.

use vstd::prelude::*;
use crate::bytes::{le_u64, read_u64_le, starts_with};
use crate::constants::BONDING_CURVE_FEE_BPS;
use crate::pubkey::Pubkey;
use crate::pump_swap::{lemma_mul_u64_fits_u128, lemma_share_le_reserve};
use crate::text::{decimal, push_decimal};
use vstd::string::StringExecFns;

verus! {

/// On-chain bonding curve account state (from the pump IDL).
#[derive(Clone, Copy, PartialEq, Eq, Debug)]
pub struct BondingCurve {
    pub virtual_token_reserves: u64,
    pub virtual_sol_reserves: u64,
    pub real_token_reserves: u64,
    pub real_sol_reserves: u64,
    pub token_total_supply: u64,
    pub complete: bool,
    pub creator: Pubkey,
    pub is_mayhem_mode: bool,
    pub is_cashback_coin: bool,
}

/// Why a bonding curve account or trade was refused.
#[derive(Clone, Copy, PartialEq, Eq, Debug, Structural)]
pub enum CurveError {
    /// "account data too short for discriminator"
    DiscriminatorTooShort,
    /// "invalid bonding curve discriminator"
    InvalidDiscriminator,
    /// "bonding curve data too short: {len} bytes (need >= {min})"
    DataTooShort { len: usize, min: usize },
    /// "bonding curve is complete, trade on PumpSwap instead"
    Complete,
    /// "bonding curve is complete" (the refusal of a token quote)
    CompleteNoQuote,
    /// "insufficient tokens on curve: want {want} but only {available} available"
    InsufficientTokens { want: u64, available: u64 },
    /// "not enough tokens on curve"
    NotEnoughTokens,
}

/// The message of a curve error.
pub open spec fn curve_error_text(e: CurveError) -> Seq<char> {
    match e {
        CurveError::DiscriminatorTooShort => "account data too short for discriminator"@,
        CurveError::InvalidDiscriminator => "invalid bonding curve discriminator"@,
        CurveError::DataTooShort { len, min } => "bonding curve data too short: "@ + decimal(len as nat)
            + " bytes (need >= "@ + decimal(min as nat) + ")"@,
        CurveError::Complete => "bonding curve is complete, trade on PumpSwap instead"@,
        CurveError::CompleteNoQuote => "bonding curve is complete"@,
        CurveError::InsufficientTokens { want, available } => "insufficient tokens on curve: want "@
            + decimal(want as nat) + " but only "@ + decimal(available as nat) + " available"@,
        CurveError::NotEnoughTokens => "not enough tokens on curve"@,
    }
}

impl CurveError {
    /// The error's message.
    pub fn message(&self) -> (s: String)
        ensures
            s@ == curve_error_text(*self),
    {
        match self {
            CurveError::DiscriminatorTooShort => "account data too short for discriminator".to_owned(),
            CurveError::InvalidDiscriminator => "invalid bonding curve discriminator".to_owned(),
            CurveError::DataTooShort { len, min } => {
                let mut s = "bonding curve data too short: ".to_owned();
                push_decimal(&mut s, *len as u64);
                s.append(" bytes (need >= ");
                push_decimal(&mut s, *min as u64);
                s.append(")");
                s
            },
            CurveError::Complete => "bonding curve is complete, trade on PumpSwap instead".to_owned(),
            CurveError::CompleteNoQuote => "bonding curve is complete".to_owned(),
            CurveError::InsufficientTokens { want, available } => {
                let mut s = "insufficient tokens on curve: want ".to_owned();
                push_decimal(&mut s, *want);
                s.append(" but only ");
                push_decimal(&mut s, *available);
                s.append(" available");
                s
            },
            CurveError::NotEnoughTokens => "not enough tokens on curve".to_owned(),
        }
    }
}

/// Anchor account discriminator of a bonding curve.
pub const BONDING_CURVE_DISCRIMINATOR: [u8; 8] = [23, 183, 248, 55, 96, 216, 172, 96];

/// Length of the curve layout after the discriminator:
/// 5 u64 + flag + address + 2 flags.
pub const CURVE_MIN_DATA_LEN: usize = 75;

/// Whether `c` holds the fields of the curve layout in `data`
/// (the account data after its discriminator).
pub open spec fn curve_decodes(c: BondingCurve, data: Seq<u8>) -> bool {
    &&& c.virtual_token_reserves == le_u64(data.subrange(0, 8))
    &&& c.virtual_sol_reserves == le_u64(data.subrange(8, 16))
    &&& c.real_token_reserves == le_u64(data.subrange(16, 24))
    &&& c.real_sol_reserves == le_u64(data.subrange(24, 32))
    &&& c.token_total_supply == le_u64(data.subrange(32, 40))
    &&& c.complete == (data[40] != 0)
    &&& c.creator@ == data.subrange(41, 73)
    &&& c.is_mayhem_mode == (data[73] != 0)
    &&& c.is_cashback_coin == (data[74] != 0)
}

/// Fee the curve charges on `amount` lamports.
pub open spec fn curve_fee(amount: int) -> int {
    amount * BONDING_CURVE_FEE_BPS as int / 10_000
}

/// Lamports that `amount` tokens cost before the round-up, as the program
/// computes it: `floor(amount * vsol / (vtok - amount))`, truncated to 64 bits.
pub open spec fn buy_quote(vsol: u64, vtok: u64, amount: u64) -> u64 {
    ((amount as int * vsol as int) / (vtok as int - amount as int)) as u64
}

/// Lamports that selling `amount` tokens yields before the fee:
/// `floor(amount * vsol / (vtok + amount))`.
pub open spec fn sell_gross(vsol: u64, vtok: u64, amount: u64) -> int {
    (amount as int * vsol as int) / (vtok as int + amount as int)
}

/// Lamports left of `sol` after the curve's fee.
pub open spec fn sol_after_fee(sol: u64) -> int {
    sol as int - curve_fee(sol as int)
}

/// Tokens that `sol` lamports buy after the fee:
/// `floor(after_fee * vtok / (vsol + after_fee))`.
pub open spec fn tokens_quote(vsol: u64, vtok: u64, sol: u64) -> int {
    (sol_after_fee(sol) * vtok as int) / (vsol as int + sol_after_fee(sol))
}

impl BondingCurve {
    /// Decodes the curve layout from the account data after its discriminator.
    pub fn deserialize(data: &[u8]) -> (r: Result<BondingCurve, CurveError>)
        ensures
            data@.len() < CURVE_MIN_DATA_LEN ==> r == Err::<BondingCurve, CurveError>(
                CurveError::DataTooShort { len: data@.len() as usize, min: CURVE_MIN_DATA_LEN },
            ),
            data@.len() >= CURVE_MIN_DATA_LEN ==> (r matches Ok(c) && curve_decodes(c, data@)),
    {
        if data.len() < CURVE_MIN_DATA_LEN {
            return Err(CurveError::DataTooShort { len: data.len(), min: CURVE_MIN_DATA_LEN });
        }
        let virtual_token_reserves = read_u64_le(data, 0);
        let virtual_sol_reserves = read_u64_le(data, 8);
        let real_token_reserves = read_u64_le(data, 16);
        let real_sol_reserves = read_u64_le(data, 24);
        let token_total_supply = read_u64_le(data, 32);
        let complete = data[40] != 0;
        let creator = Pubkey::read_at(data, 41);
        let is_mayhem_mode = data.len() > 73 && data[73] != 0;
        let is_cashback_coin = data.len() > 74 && data[74] != 0;
        Ok(BondingCurve {
            virtual_token_reserves,
            virtual_sol_reserves,
            real_token_reserves,
            real_sol_reserves,
            token_total_supply,
            complete,
            creator,
            is_mayhem_mode,
            is_cashback_coin,
        })
    }

    /// Checks the 8-byte curve discriminator at the start of the account data.
    pub fn validate_discriminator(account_data: &[u8]) -> (r: Result<(), CurveError>)
        ensures
            account_data@.len() < 8 ==> r == Err::<(), CurveError>(CurveError::DiscriminatorTooShort),
            account_data@.len() >= 8 && account_data@.subrange(0, 8) != BONDING_CURVE_DISCRIMINATOR@
                ==> r == Err::<(), CurveError>(CurveError::InvalidDiscriminator),
            account_data@.len() >= 8 && account_data@.subrange(0, 8) == BONDING_CURVE_DISCRIMINATOR@
                ==> r == Ok::<(), CurveError>(()),
    {
        if account_data.len() < 8 {
            return Err(CurveError::DiscriminatorTooShort);
        }
        if !starts_with(account_data, &BONDING_CURVE_DISCRIMINATOR) {
            return Err(CurveError::InvalidDiscriminator);
        }
        Ok(())
    }

    /// `(sol_cost, fee)` in lamports of buying `token_amount` tokens: the
    /// constant-product quote rounded up by one lamport, and the curve's fee
    /// on it.
    pub fn calculate_buy_cost(&self, token_amount: u64) -> (r: Result<(u64, u64), CurveError>)
        requires
            !self.complete && token_amount <= self.real_token_reserves ==> {
                &&& token_amount < self.virtual_token_reserves
                &&& buy_quote(self.virtual_sol_reserves, self.virtual_token_reserves, token_amount)
                    < u64::MAX
                &&& (buy_quote(self.virtual_sol_reserves, self.virtual_token_reserves, token_amount)
                    + 1) * BONDING_CURVE_FEE_BPS <= u64::MAX
            },
        ensures
            self.complete ==> r == Err::<(u64, u64), CurveError>(CurveError::Complete),
            !self.complete && token_amount > self.real_token_reserves ==> r == Err::<
                (u64, u64),
                CurveError,
            >(CurveError::InsufficientTokens { want: token_amount, available: self.real_token_reserves }),
            !self.complete && token_amount <= self.real_token_reserves ==> ({
                let cost = buy_quote(self.virtual_sol_reserves, self.virtual_token_reserves, token_amount)
                    + 1;
                r == Ok::<(u64, u64), CurveError>((cost as u64, curve_fee(cost) as u64))
            }),
    {
        if self.complete {
            return Err(CurveError::Complete);
        }
        if token_amount > self.real_token_reserves {
            return Err(
                CurveError::InsufficientTokens {
                    want: token_amount,
                    available: self.real_token_reserves,
                },
            );
        }
        proof {
            lemma_mul_u64_fits_u128(token_amount, self.virtual_sol_reserves);
        }
        let numerator = (token_amount as u128) * (self.virtual_sol_reserves as u128);
        let denominator = (self.virtual_token_reserves as u128) - (token_amount as u128);
        let sol_cost = (numerator / denominator) as u64 + 1;
        let fee = sol_cost * BONDING_CURVE_FEE_BPS / 10_000;
        Ok((sol_cost, fee))
    }

    /// `(net_output, fee)` in lamports of selling `token_amount` tokens: the
    /// constant-product quote less the curve's fee, and that fee.
    pub fn calculate_sell_output(&self, token_amount: u64) -> (r: Result<(u64, u64), CurveError>)
        requires
            !self.complete ==> {
                &&& self.virtual_token_reserves as int + token_amount as int > 0
                &&& sell_gross(self.virtual_sol_reserves, self.virtual_token_reserves, token_amount)
                    * BONDING_CURVE_FEE_BPS <= u64::MAX
            },
        ensures
            self.complete ==> r == Err::<(u64, u64), CurveError>(CurveError::Complete),
            !self.complete ==> ({
                let gross = sell_gross(self.virtual_sol_reserves, self.virtual_token_reserves, token_amount);
                r == Ok::<(u64, u64), CurveError>(((gross - curve_fee(gross)) as u64, curve_fee(gross) as u64))
            }),
    {
        if self.complete {
            return Err(CurveError::Complete);
        }
        proof {
            lemma_mul_u64_fits_u128(token_amount, self.virtual_sol_reserves);
            lemma_share_le_reserve(
                token_amount as int,
                self.virtual_sol_reserves as int,
                self.virtual_token_reserves as int,
            );
        }
        let numerator = (token_amount as u128) * (self.virtual_sol_reserves as u128);
        let denominator = (self.virtual_token_reserves as u128) + (token_amount as u128);
        let sol_output = (numerator / denominator) as u64;
        let fee = sol_output * BONDING_CURVE_FEE_BPS / 10_000;
        let net_output = sol_output.saturating_sub(fee);
        Ok((net_output, fee))
    }

    /// Tokens that `sol_lamports` buy after the curve's fee; refused when the
    /// curve is complete or holds fewer real tokens than that.
    pub fn tokens_for_sol(&self, sol_lamports: u64) -> (r: Result<u64, CurveError>)
        requires
            !self.complete ==> {
                &&& sol_lamports as int * BONDING_CURVE_FEE_BPS as int <= u64::MAX
                &&& self.virtual_sol_reserves as int + sol_after_fee(sol_lamports) > 0
            },
        ensures
            self.complete ==> r == Err::<u64, CurveError>(CurveError::CompleteNoQuote),
            !self.complete && tokens_quote(self.virtual_sol_reserves, self.virtual_token_reserves, sol_lamports)
                > self.real_token_reserves ==> r == Err::<u64, CurveError>(CurveError::NotEnoughTokens),
            !self.complete && tokens_quote(self.virtual_sol_reserves, self.virtual_token_reserves, sol_lamports)
                <= self.real_token_reserves ==> r == Ok::<u64, CurveError>(
                tokens_quote(self.virtual_sol_reserves, self.virtual_token_reserves, sol_lamports) as u64,
            ),
    {
        if self.complete {
            return Err(CurveError::CompleteNoQuote);
        }
        let fee = sol_lamports * BONDING_CURVE_FEE_BPS / 10_000;
        let sol_after_fee = sol_lamports - fee;
        proof {
            lemma_mul_u64_fits_u128(sol_after_fee, self.virtual_token_reserves);
            lemma_share_le_reserve(
                sol_after_fee as int,
                self.virtual_token_reserves as int,
                self.virtual_sol_reserves as int,
            );
        }
        let numerator = (sol_after_fee as u128) * (self.virtual_token_reserves as u128);
        let denominator = (self.virtual_sol_reserves as u128) + (sol_after_fee as u128);
        let tokens = (numerator / denominator) as u64;
        if tokens > self.real_token_reserves {
            return Err(CurveError::NotEnoughTokens);
        }
        Ok(tokens)
    }
}

/// Buying rounds up: the cost of `amount` tokens, times the virtual tokens
/// left after the buy, strictly exceeds `amount` times the virtual SOL
/// reserves (whenever the quote fits in 64 bits); so a buy strictly raises
/// the product of the virtual reserves.
pub proof fn law_buy_rounds_up(vsol: u64, vtok: u64, amount: u64)
    requires
        amount < vtok,
        (amount as int * vsol as int) / (vtok as int - amount as int) < u64::MAX,
    ensures
        (buy_quote(vsol, vtok, amount) + 1) * (vtok as int - amount as int) > amount as int
            * vsol as int,
        (vtok as int - amount as int) * (vsol as int + buy_quote(vsol, vtok, amount) + 1) > vtok as int
            * vsol as int,
{
    let x = amount as int * vsol as int;
    let d = vtok as int - amount as int;
    let q = x / d;
    assert(0 <= x) by (nonlinear_arith)
        requires
            x == amount as int * vsol as int,
    ;
    vstd::arithmetic::div_mod::lemma_fundamental_div_mod(x, d);
    vstd::arithmetic::div_mod::lemma_mod_pos_bound(x, d);
    vstd::arithmetic::div_mod::lemma_div_pos_is_pos(x, d);
    assert(buy_quote(vsol, vtok, amount) == q);
    let c = q + 1;
    assert(c * d > x) by (nonlinear_arith)
        requires
            x == d * q + x % d,
            0 <= x % d < d,
            c == q + 1,
    ;
    assert(d * (vsol as int + c) > vtok as int * vsol as int) by (nonlinear_arith)
        requires
            c * d > x,
            x == amount as int * vsol as int,
            d == vtok as int - amount as int,
    ;
}

/// Selling never pays out more than the constant product allows: the
/// virtual reserves after the sale (tokens up by `amount`, SOL down by the
/// gross output) keep at least their product; the fee and the net output
/// add up to the gross output.
pub proof fn law_sell_keeps_product(vsol: u64, vtok: u64, amount: u64)
    requires
        vtok as int + amount as int > 0,
    ensures
        (vtok as int + amount as int) * (vsol as int - sell_gross(vsol, vtok, amount)) >= vtok as int
            * vsol as int,
        0 <= curve_fee(sell_gross(vsol, vtok, amount)) <= sell_gross(vsol, vtok, amount),
{
    let x = amount as int * vsol as int;
    let d = vtok as int + amount as int;
    let g = sell_gross(vsol, vtok, amount);
    crate::pump_swap::lemma_share_le_reserve(amount as int, vsol as int, vtok as int);
    vstd::arithmetic::div_mod::lemma_fundamental_div_mod(x, d);
    vstd::arithmetic::div_mod::lemma_mod_pos_bound(x, d);
    assert(d * g <= x);
    assert(d * (vsol as int - g) >= vtok as int * vsol as int) by (nonlinear_arith)
        requires
            d * g <= x,
            x == amount as int * vsol as int,
            d == vtok as int + amount as int,
    ;
}

/// The tokens that a budget buys are worth the budget: for a budget of
/// `sol` lamports, `tokens_for_sol` quotes fewer tokens than the virtual
/// reserves, and buying them with `calculate_buy_cost` costs at most the
/// budget after the fee, plus the one-lamport round-up.
pub proof fn law_quoted_tokens_within_budget(vsol: u64, vtok: u64, sol: u64)
    requires
        vsol > 0,
        vtok > 0,
        sol as int * BONDING_CURVE_FEE_BPS as int <= u64::MAX,
    ensures
        tokens_quote(vsol, vtok, sol) < vtok,
        buy_quote(vsol, vtok, tokens_quote(vsol, vtok, sol) as u64) + 1 <= sol_after_fee(sol) + 1,
{
    let a = sol_after_fee(sol);
    let t = tokens_quote(vsol, vtok, sol);
    let v = vsol as int;
    let k = vtok as int;
    assert(0 <= a <= sol);
    crate::pump_swap::lemma_share_le_reserve(a, k, v);
    vstd::arithmetic::div_mod::lemma_fundamental_div_mod(a * k, v + a);
    vstd::arithmetic::div_mod::lemma_mod_pos_bound(a * k, v + a);
    assert(t * (v + a) <= a * k);
    assert(t < k) by (nonlinear_arith)
        requires
            t * (v + a) <= a * k,
            v > 0,
            a >= 0,
            k > 0,
            t >= 0,
    ;
    assert(t * v <= a * (k - t)) by (nonlinear_arith)
        requires
            t * (v + a) <= a * k,
    ;
    assert(0 <= t * v) by (nonlinear_arith)
        requires
            t >= 0,
            v > 0,
    ;
    vstd::arithmetic::div_mod::lemma_div_is_ordered(t * v, a * (k - t), k - t);
    vstd::arithmetic::div_mod::lemma_div_by_multiple(a, k - t);
    assert(a * (k - t) == (k - t) * a) by (nonlinear_arith);
    assert((t * v) / (k - t) <= a);
    vstd::arithmetic::div_mod::lemma_div_pos_is_pos(t * v, k - t);
    assert((t as u64) as int == t);
}

/// Buying `amount` tokens and selling them straight back never returns what
/// the buy cost: on the curve the buy leaves behind (SOL up by the cost,
/// tokens down by `amount`), the gross output of the sale is strictly less
/// than the cost, before any fee.
pub proof fn law_buy_then_sell_loses(vsol: u64, vtok: u64, amount: u64)
    requires
        amount < vtok,
        (amount as int * vsol as int) / (vtok as int - amount as int) < u64::MAX,
        vsol as int + buy_quote(vsol, vtok, amount) + 1 <= u64::MAX,
    ensures
        ({
            let cost = buy_quote(vsol, vtok, amount) + 1;
            sell_gross((vsol as int + cost) as u64, (vtok - amount) as u64, amount) < cost
        }),
{
    law_buy_rounds_up(vsol, vtok, amount);
    let c = buy_quote(vsol, vtok, amount) + 1;
    let v2 = vsol as int + c;
    let k2 = vtok as int - amount as int;
    let t = amount as int;
    assert(c * k2 > t * vsol as int);
    assert(k2 + t == vtok as int);
    assert(t * v2 < c * (vtok as int)) by (nonlinear_arith)
        requires
            c * k2 > t * vsol as int,
            v2 == vsol as int + c,
            k2 + t == vtok as int,
    ;
    let g = (t * v2) / (vtok as int);
    vstd::arithmetic::div_mod::lemma_fundamental_div_mod(t * v2, vtok as int);
    vstd::arithmetic::div_mod::lemma_mod_pos_bound(t * v2, vtok as int);
    assert(g < c) by (nonlinear_arith)
        requires
            t * v2 == (vtok as int) * g + (t * v2) % (vtok as int),
            0 <= (t * v2) % (vtok as int),
            t * v2 < c * (vtok as int),
            vtok > 0,
    ;
    assert(sell_gross((vsol as int + c) as u64, (vtok - amount) as u64, amount) == g);
}

} // verus!
