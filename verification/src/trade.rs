//! The arithmetic of a trade between reading the chain and sending the
//! transaction: amounts, costs, fees and slippage limits.

use vstd::prelude::*;
use crate::bonding_curve::{
    BondingCurve, CurveError, buy_quote, curve_fee, law_quoted_tokens_within_budget, sell_gross,
    sol_after_fee, tokens_quote,
};
use crate::constants::{BONDING_CURVE_FEE_BPS, PUMP_SWAP_TOTAL_FEE_BPS};
use crate::pump_swap::{
    SwapPool, lemma_mul_u64_fits_u128, lemma_share_le_reserve, swap_buy_out, swap_fee,
    swap_sell_gross,
};

verus! {

/// Why a trade was not planned.
#[derive(Clone, Copy, PartialEq, Eq, Debug, Structural)]
pub enum TradeError {
    /// "no tokens to sell"
    NoTokensToSell,
    /// "specify --amount, --percent, or --all"
    NoSellAmount,
}

/// The message of a trade error.
pub open spec fn trade_error_text(e: TradeError) -> Seq<char> {
    match e {
        TradeError::NoTokensToSell => "no tokens to sell"@,
        TradeError::NoSellAmount => "specify --amount, --percent, or --all"@,
    }
}

impl TradeError {
    /// The error's message.
    pub fn message(&self) -> (s: String)
        ensures
            s@ == trade_error_text(*self),
    {
        match self {
            TradeError::NoTokensToSell => "no tokens to sell".to_owned(),
            TradeError::NoSellAmount => "specify --amount, --percent, or --all".to_owned(),
        }
    }
}

/// How much of a holding to sell: an exact amount (in whatever unit the
/// caller gives it), a percentage of the balance, or all of it.
#[derive(Clone, Copy, PartialEq, Eq, Debug)]
pub enum SellAmount<T> {
    Exact(T),
    Percent(u8),
    All,
}

impl<T> SellAmount<T> {
    /// Chooses the sell amount from the command-line options: `all` wins,
    /// then a percentage, then an exact amount; with none of them the sell
    /// is refused.
    pub fn resolve(amount: Option<T>, percent: Option<u8>, all: bool) -> (r: Result<
        SellAmount<T>,
        TradeError,
    >)
        ensures
            all ==> r == Ok::<SellAmount<T>, TradeError>(SellAmount::All),
            !all && percent is Some ==> r == Ok::<SellAmount<T>, TradeError>(
                SellAmount::Percent(percent->0),
            ),
            !all && percent is None && amount is Some ==> r == Ok::<SellAmount<T>, TradeError>(
                SellAmount::Exact(amount->0),
            ),
            !all && percent is None && amount is None ==> r == Err::<SellAmount<T>, TradeError>(
                TradeError::NoSellAmount,
            ),
    {
        if all {
            Ok(SellAmount::All)
        } else if let Some(pct) = percent {
            Ok(SellAmount::Percent(pct))
        } else if let Some(amt) = amount {
            Ok(SellAmount::Exact(amt))
        } else {
            Err(TradeError::NoSellAmount)
        }
    }
}

/// `amount` raised by `bps` basis points (rounded down): the most a buyer
/// accepts to pay.
pub open spec fn raised_by(amount: u64, bps: u64) -> int {
    amount as int + amount as int * bps as int / 10_000
}

/// `amount` lowered by `bps` basis points (rounded down): the least a
/// seller accepts to receive.
pub open spec fn lowered_by(amount: u64, bps: u64) -> int {
    amount as int - amount as int * bps as int / 10_000
}

/// Whether raising `amount` by `bps` stays within 64 bits.
pub open spec fn raise_fits(amount: u64, bps: u64) -> bool {
    amount as int * bps as int <= u64::MAX && raised_by(amount, bps) <= u64::MAX
}

/// Whether lowering `amount` by `bps` stays within 64 bits and above zero.
pub open spec fn lower_fits(amount: u64, bps: u64) -> bool {
    amount as int * bps as int <= u64::MAX && lowered_by(amount, bps) >= 0
}

/// The upper limit of a buy: `amount + amount * bps / 10_000`.
pub fn raise_by_slippage(amount: u64, slippage_bps: u64) -> (r: u64)
    requires
        raise_fits(amount, slippage_bps),
    ensures
        r == raised_by(amount, slippage_bps),
{
    amount + (amount * slippage_bps / 10_000)
}

/// The lower limit of a sell: `amount - amount * bps / 10_000`.
pub fn lower_by_slippage(amount: u64, slippage_bps: u64) -> (r: u64)
    requires
        lower_fits(amount, slippage_bps),
    ensures
        r == lowered_by(amount, slippage_bps),
{
    amount - (amount * slippage_bps / 10_000)
}

/// A bonding-curve buy, ready to be sent.
#[derive(Clone, Copy, PartialEq, Eq, Debug, Structural)]
pub struct BuyPlan {
    /// Tokens to buy.
    pub token_amount: u64,
    /// Lamports the tokens cost.
    pub sol_cost: u64,
    /// Curve fee on that cost.
    pub fee: u64,
    /// The most lamports the instruction may spend.
    pub max_sol_cost: u64,
}

/// Whether planning a buy of `sol` lamports on `curve` stays within the
/// arithmetic the program's pricing performs.
pub open spec fn buy_plan_fits(curve: BondingCurve, sol: u64, slippage_bps: u64) -> bool {
    let vsol = curve.virtual_sol_reserves;
    let vtok = curve.virtual_token_reserves;
    !curve.complete ==> {
        &&& sol as int * BONDING_CURVE_FEE_BPS as int <= u64::MAX
        &&& vsol as int + sol_after_fee(sol) > 0
        &&& tokens_quote(vsol, vtok, sol) <= curve.real_token_reserves ==> {
            let t = tokens_quote(vsol, vtok, sol) as u64;
            let cost = buy_quote(vsol, vtok, t) + 1;
            &&& t < vtok
            &&& buy_quote(vsol, vtok, t) < u64::MAX
            &&& cost * BONDING_CURVE_FEE_BPS <= u64::MAX
            &&& raise_fits(cost as u64, slippage_bps)
        }
    }
}

/// The buy plan for a budget of `sol` lamports: refused on a complete curve
/// or when the curve holds fewer real tokens than the budget buys; else the
/// tokens the budget buys after the fee, their cost rounded up by one
/// lamport, the fee on that cost, and the cost raised by the slippage.
pub open spec fn planned_buy(curve: BondingCurve, sol: u64, slippage_bps: u64) -> Result<BuyPlan, CurveError> {
    let vsol = curve.virtual_sol_reserves;
    let vtok = curve.virtual_token_reserves;
    if curve.complete {
        Err(CurveError::CompleteNoQuote)
    } else if tokens_quote(vsol, vtok, sol) > curve.real_token_reserves {
        Err(CurveError::NotEnoughTokens)
    } else {
        let t = tokens_quote(vsol, vtok, sol) as u64;
        let cost = (buy_quote(vsol, vtok, t) + 1) as u64;
        Ok(
            BuyPlan {
                token_amount: t,
                sol_cost: cost,
                fee: curve_fee(cost as int) as u64,
                max_sol_cost: raised_by(cost, slippage_bps) as u64,
            },
        )
    }
}

/// Plans a bonding-curve buy for a budget of `sol_lamports`: the tokens the
/// budget buys after the fee, their cost (rounded up) and fee, and the cost
/// raised by the slippage tolerance.
pub fn plan_buy(curve: &BondingCurve, sol_lamports: u64, slippage_bps: u64) -> (r: Result<
    BuyPlan,
    CurveError,
>)
    requires
        buy_plan_fits(*curve, sol_lamports, slippage_bps),
    ensures
        r == planned_buy(*curve, sol_lamports, slippage_bps),
        curve.complete ==> r == Err::<BuyPlan, CurveError>(CurveError::CompleteNoQuote),
        !curve.complete && tokens_quote(
            curve.virtual_sol_reserves,
            curve.virtual_token_reserves,
            sol_lamports,
        ) > curve.real_token_reserves ==> r == Err::<BuyPlan, CurveError>(
            CurveError::NotEnoughTokens,
        ),
        !curve.complete && tokens_quote(
            curve.virtual_sol_reserves,
            curve.virtual_token_reserves,
            sol_lamports,
        ) <= curve.real_token_reserves ==> (r matches Ok(p) && {
            &&& p.token_amount == tokens_quote(
                curve.virtual_sol_reserves,
                curve.virtual_token_reserves,
                sol_lamports,
            )
            &&& p.sol_cost == buy_quote(
                curve.virtual_sol_reserves,
                curve.virtual_token_reserves,
                p.token_amount,
            ) + 1
            &&& p.fee == curve_fee(p.sol_cost as int)
            &&& p.max_sol_cost == raised_by(p.sol_cost, slippage_bps)
            &&& curve.virtual_sol_reserves > 0 ==> p.sol_cost <= sol_after_fee(sol_lamports) + 1
        }),
{
    let token_amount = match curve.tokens_for_sol(sol_lamports) {
        Ok(t) => t,
        Err(e) => return Err(e),
    };
    let (sol_cost, fee) = match curve.calculate_buy_cost(token_amount) {
        Ok(c) => c,
        Err(e) => return Err(e),
    };
    proof {
        if curve.virtual_sol_reserves > 0 {
            law_quoted_tokens_within_budget(
                curve.virtual_sol_reserves,
                curve.virtual_token_reserves,
                sol_lamports,
            );
        }
    }
    let max_sol_cost = raise_by_slippage(sol_cost, slippage_bps);
    Ok(BuyPlan { token_amount, sol_cost, fee, max_sol_cost })
}

/// A bonding-curve sell, ready to be sent.
#[derive(Clone, Copy, PartialEq, Eq, Debug, Structural)]
pub struct SellPlan {
    /// Tokens to sell.
    pub token_amount: u64,
    /// Lamports received after the fee.
    pub sol_output: u64,
    /// Curve fee.
    pub fee: u64,
    /// The least lamports the instruction may receive.
    pub min_sol_output: u64,
}

/// Whether planning a sell of `amount` tokens on `curve` stays within the
/// arithmetic the program's pricing performs.
pub open spec fn sell_plan_fits(curve: BondingCurve, amount: u64, slippage_bps: u64) -> bool {
    let gross = sell_gross(curve.virtual_sol_reserves, curve.virtual_token_reserves, amount);
    !curve.complete ==> {
        &&& curve.virtual_token_reserves as int + amount as int > 0
        &&& gross * BONDING_CURVE_FEE_BPS <= u64::MAX
        &&& lower_fits((gross - curve_fee(gross)) as u64, slippage_bps)
    }
}

/// Plans a bonding-curve sell of `token_amount` tokens: the lamports they
/// yield after the fee, the fee, and the output lowered by the slippage
/// tolerance.
pub fn plan_sell(curve: &BondingCurve, token_amount: u64, slippage_bps: u64) -> (r: Result<
    SellPlan,
    CurveError,
>)
    requires
        sell_plan_fits(*curve, token_amount, slippage_bps),
    ensures
        curve.complete ==> r == Err::<SellPlan, CurveError>(CurveError::Complete),
        !curve.complete ==> (r matches Ok(p) && {
            let gross = sell_gross(curve.virtual_sol_reserves, curve.virtual_token_reserves, token_amount);
            &&& p.token_amount == token_amount
            &&& p.fee == curve_fee(gross)
            &&& p.sol_output == gross - curve_fee(gross)
            &&& p.min_sol_output == lowered_by(p.sol_output, slippage_bps)
        }),
{
    let (sol_output, fee) = match curve.calculate_sell_output(token_amount) {
        Ok(c) => c,
        Err(e) => return Err(e),
    };
    let min_sol_output = lower_by_slippage(sol_output, slippage_bps);
    Ok(SellPlan { token_amount, sol_output, fee, min_sol_output })
}

/// Tokens to sell out of a `balance`: a `percent` of it (rounded down), or
/// all of it when no percentage is given; refused when the balance is zero.
pub fn tokens_to_sell(balance: u64, percent: Option<u8>) -> (r: Result<u64, TradeError>)
    requires
        percent matches Some(p) ==> balance as int * p as int <= u64::MAX,
    ensures
        balance == 0 ==> r == Err::<u64, TradeError>(TradeError::NoTokensToSell),
        balance > 0 ==> r == Ok::<u64, TradeError>(
            match percent {
                Some(p) => (balance as int * p as int / 100) as u64,
                None => balance,
            },
        ),
{
    if balance == 0 {
        return Err(TradeError::NoTokensToSell);
    }
    match percent {
        Some(p) => Ok(balance * (p as u64) / 100),
        None => Ok(balance),
    }
}

/// Tokens an automatic sell takes out of `balance`: all of it from 100
/// percent up, else `sell_percent` of it (rounded down).
pub fn autosell_amount(balance: u64, sell_percent: u8) -> (r: u64)
    requires
        sell_percent < 100 ==> balance as int * sell_percent as int <= u64::MAX,
    ensures
        sell_percent >= 100 ==> r == balance,
        sell_percent < 100 ==> r == balance as int * sell_percent as int / 100,
        r <= balance,
{
    if sell_percent >= 100 {
        balance
    } else {
        proof {
            assert(balance as int * sell_percent as int <= balance as int * 100) by (nonlinear_arith)
                requires
                    sell_percent < 100,
            ;
        }
        balance * (sell_percent as u64) / 100
    }
}

/// A PumpSwap buy, ready to be sent.
#[derive(Clone, Copy, PartialEq, Eq, Debug, Structural)]
pub struct SwapBuyPlan {
    /// Base tokens out.
    pub tokens_out: u64,
    /// Pool fee on the SOL in.
    pub fee: u64,
    /// The most lamports the instruction may spend.
    pub max_sol_in: u64,
}

/// Plans a PumpSwap buy with `sol_in` lamports against reserves
/// `(base, quote)`.
pub fn plan_swap_buy(
    pool: &SwapPool,
    base_reserves: u64,
    quote_reserves: u64,
    sol_in: u64,
    slippage_bps: u64,
) -> (p: SwapBuyPlan)
    requires
        sol_in as int * PUMP_SWAP_TOTAL_FEE_BPS as int <= u64::MAX,
        quote_reserves as int + (sol_in as int - swap_fee(sol_in)) > 0,
        raise_fits(sol_in, slippage_bps),
    ensures
        p.tokens_out == swap_buy_out(base_reserves, quote_reserves, sol_in),
        p.fee == swap_fee(sol_in),
        p.max_sol_in == raised_by(sol_in, slippage_bps),
{
    let (tokens_out, fee) = match pool.calculate_buy(base_reserves, quote_reserves, sol_in) {
        Ok(c) => c,
        Err(_) => (0, 0),
    };
    let max_sol_in = raise_by_slippage(sol_in, slippage_bps);
    SwapBuyPlan { tokens_out, fee, max_sol_in }
}

/// A PumpSwap sell, ready to be sent.
#[derive(Clone, Copy, PartialEq, Eq, Debug, Structural)]
pub struct SwapSellPlan {
    /// Lamports out after the fee.
    pub sol_out: u64,
    /// Pool fee.
    pub fee: u64,
    /// The least lamports the instruction may receive.
    pub min_sol_out: u64,
}

/// Plans a PumpSwap sell of `tokens_in` base tokens against reserves
/// `(base, quote)`.
pub fn plan_swap_sell(
    pool: &SwapPool,
    base_reserves: u64,
    quote_reserves: u64,
    tokens_in: u64,
    slippage_bps: u64,
) -> (p: SwapSellPlan)
    requires
        base_reserves as int + tokens_in as int > 0,
        swap_sell_gross(base_reserves, quote_reserves, tokens_in) * PUMP_SWAP_TOTAL_FEE_BPS as int
            <= u64::MAX,
        ({
            let gross = swap_sell_gross(base_reserves, quote_reserves, tokens_in);
            lower_fits((gross - gross * PUMP_SWAP_TOTAL_FEE_BPS as int / 10_000) as u64, slippage_bps)
        }),
    ensures
        ({
            let gross = swap_sell_gross(base_reserves, quote_reserves, tokens_in);
            &&& p.fee == gross * PUMP_SWAP_TOTAL_FEE_BPS as int / 10_000
            &&& p.sol_out == gross - p.fee
            &&& p.min_sol_out == lowered_by(p.sol_out, slippage_bps)
        }),
{
    let (sol_out, fee) = match pool.calculate_sell(base_reserves, quote_reserves, tokens_in) {
        Ok(c) => c,
        Err(_) => (0, 0),
    };
    let min_sol_out = lower_by_slippage(sol_out, slippage_bps);
    SwapSellPlan { sol_out, fee, min_sol_out }
}

/// Whether raising `amount` by `bps` stays within 64 bits.
pub fn raise_fits_check(amount: u64, bps: u64) -> (ok: bool)
    ensures
        ok == raise_fits(amount, bps),
{
    proof {
        lemma_mul_u64_fits_u128(amount, bps);
    }
    let product = (amount as u128) * (bps as u128);
    if product > u64::MAX as u128 {
        return false;
    }
    (amount as u128) + product / 10_000 <= u64::MAX as u128
}

/// Whether lowering `amount` by `bps` stays within 64 bits and above zero.
pub fn lower_fits_check(amount: u64, bps: u64) -> (ok: bool)
    ensures
        ok == lower_fits(amount, bps),
{
    proof {
        lemma_mul_u64_fits_u128(amount, bps);
    }
    let product = (amount as u128) * (bps as u128);
    if product > u64::MAX as u128 {
        return false;
    }
    product / 10_000 <= amount as u128
}

/// Whether `plan_buy` may be called: `buy_plan_fits`, computed.
pub fn buy_plan_fits_check(curve: &BondingCurve, sol_lamports: u64, slippage_bps: u64) -> (ok: bool)
    ensures
        ok == buy_plan_fits(*curve, sol_lamports, slippage_bps),
{
    if curve.complete {
        return true;
    }
    let vsol = curve.virtual_sol_reserves;
    let vtok = curve.virtual_token_reserves;
    proof {
        lemma_mul_u64_fits_u128(sol_lamports, BONDING_CURVE_FEE_BPS);
    }
    if (sol_lamports as u128) * (BONDING_CURVE_FEE_BPS as u128) > u64::MAX as u128 {
        return false;
    }
    let fee = sol_lamports * BONDING_CURVE_FEE_BPS / 10_000;
    let after = sol_lamports - fee;
    assert(after == sol_after_fee(sol_lamports));
    if (vsol as u128) + (after as u128) == 0 {
        return false;
    }
    proof {
        lemma_mul_u64_fits_u128(after, vtok);
        lemma_share_le_reserve(after as int, vtok as int, vsol as int);
    }
    let tokens = ((after as u128) * (vtok as u128)) / ((vsol as u128) + (after as u128));
    assert(tokens == tokens_quote(vsol, vtok, sol_lamports));
    if tokens > curve.real_token_reserves as u128 {
        return true;
    }
    let t = tokens as u64;
    if t >= vtok {
        return false;
    }
    proof {
        lemma_mul_u64_fits_u128(t, vsol);
    }
    let quote = ((t as u128) * (vsol as u128)) / ((vtok - t) as u128);
    proof {
        let x = t as int * vsol as int;
        let d = vtok as int - t as int;
        vstd::arithmetic::div_mod::lemma_div_pos_is_pos(x, d);
        vstd::arithmetic::div_mod::lemma_div_is_ordered_by_denominator(x, 1, d);
        assert(x / 1 == x);
        assert(quote as int == x / d);
    }
    let truncated = quote as u64;
    assert(truncated == buy_quote(vsol, vtok, t));
    if truncated == u64::MAX {
        return false;
    }
    let cost = truncated + 1;
    proof {
        lemma_mul_u64_fits_u128(cost, BONDING_CURVE_FEE_BPS);
    }
    if (cost as u128) * (BONDING_CURVE_FEE_BPS as u128) > u64::MAX as u128 {
        return false;
    }
    raise_fits_check(cost, slippage_bps)
}

/// Whether `plan_sell` may be called: `sell_plan_fits`, computed.
pub fn sell_plan_fits_check(curve: &BondingCurve, token_amount: u64, slippage_bps: u64) -> (ok:
    bool)
    ensures
        ok == sell_plan_fits(*curve, token_amount, slippage_bps),
{
    if curve.complete {
        return true;
    }
    let vsol = curve.virtual_sol_reserves;
    let vtok = curve.virtual_token_reserves;
    if (vtok as u128) + (token_amount as u128) == 0 {
        return false;
    }
    proof {
        lemma_mul_u64_fits_u128(token_amount, vsol);
        lemma_share_le_reserve(token_amount as int, vsol as int, vtok as int);
    }
    let gross = ((token_amount as u128) * (vsol as u128)) / ((vtok as u128) + (token_amount as u128));
    assert(gross == sell_gross(vsol, vtok, token_amount));
    let g = gross as u64;
    proof {
        lemma_mul_u64_fits_u128(g, BONDING_CURVE_FEE_BPS);
    }
    if (g as u128) * (BONDING_CURVE_FEE_BPS as u128) > u64::MAX as u128 {
        return false;
    }
    let net = g - g * BONDING_CURVE_FEE_BPS / 10_000;
    lower_fits_check(net, slippage_bps)
}

/// Whether `plan_swap_buy` may be called with these amounts.
pub fn swap_buy_fits_check(quote_reserves: u64, sol_in: u64, slippage_bps: u64) -> (ok: bool)
    ensures
        ok == (sol_in as int * PUMP_SWAP_TOTAL_FEE_BPS as int <= u64::MAX && quote_reserves as int
            + (sol_in as int - swap_fee(sol_in)) > 0 && raise_fits(sol_in, slippage_bps)),
{
    proof {
        lemma_mul_u64_fits_u128(sol_in, PUMP_SWAP_TOTAL_FEE_BPS);
    }
    if (sol_in as u128) * (PUMP_SWAP_TOTAL_FEE_BPS as u128) > u64::MAX as u128 {
        return false;
    }
    let after = sol_in - sol_in * PUMP_SWAP_TOTAL_FEE_BPS / 10_000;
    if (quote_reserves as u128) + (after as u128) == 0 {
        return false;
    }
    raise_fits_check(sol_in, slippage_bps)
}

/// Whether `plan_swap_sell` may be called with these amounts.
pub fn swap_sell_fits_check(base_reserves: u64, quote_reserves: u64, tokens_in: u64, slippage_bps: u64) -> (ok: bool)
    ensures
        ok == (base_reserves as int + tokens_in as int > 0 && swap_sell_gross(
            base_reserves,
            quote_reserves,
            tokens_in,
        ) * PUMP_SWAP_TOTAL_FEE_BPS as int <= u64::MAX && ({
            let gross = swap_sell_gross(base_reserves, quote_reserves, tokens_in);
            lower_fits((gross - gross * PUMP_SWAP_TOTAL_FEE_BPS as int / 10_000) as u64, slippage_bps)
        })),
{
    if (base_reserves as u128) + (tokens_in as u128) == 0 {
        return false;
    }
    proof {
        lemma_mul_u64_fits_u128(tokens_in, quote_reserves);
        lemma_share_le_reserve(tokens_in as int, quote_reserves as int, base_reserves as int);
    }
    let gross = ((tokens_in as u128) * (quote_reserves as u128)) / ((base_reserves as u128) + (
    tokens_in as u128));
    assert(gross == swap_sell_gross(base_reserves, quote_reserves, tokens_in));
    let g = gross as u64;
    proof {
        lemma_mul_u64_fits_u128(g, PUMP_SWAP_TOTAL_FEE_BPS);
    }
    if (g as u128) * (PUMP_SWAP_TOTAL_FEE_BPS as u128) > u64::MAX as u128 {
        return false;
    }
    let net = g - g * PUMP_SWAP_TOTAL_FEE_BPS / 10_000;
    lower_fits_check(net, slippage_bps)
}

/// Whether a percentage of `balance` can be computed within 64 bits.
pub fn share_fits_check(balance: u64, percent: u8) -> (ok: bool)
    ensures
        ok == (balance as int * percent as int <= u64::MAX),
{
    proof {
        lemma_mul_u64_fits_u128(balance, percent as u64);
    }
    (balance as u128) * (percent as u128) <= u64::MAX as u128
}

} // verus!
