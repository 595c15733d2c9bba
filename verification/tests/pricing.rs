use pump_cli::bonding_curve::{BondingCurve, CurveError};
use pump_cli::pubkey::Pubkey;
use pump_cli::pump_swap::SwapPool;
use pump_cli::trade::{
    buy_plan_fits_check, lower_fits_check, raise_fits_check, sell_plan_fits_check,
    share_fits_check, swap_buy_fits_check, swap_sell_fits_check,
    autosell_amount, lower_by_slippage, plan_buy, plan_sell, plan_swap_buy, plan_swap_sell,
    raise_by_slippage, tokens_to_sell, SellAmount, TradeError,
};

fn fresh_curve() -> BondingCurve {
    BondingCurve {
        virtual_token_reserves: 1_073_000_000_000_000,
        virtual_sol_reserves: 30_000_000_000,
        real_token_reserves: 793_100_000_000_000,
        real_sol_reserves: 0,
        token_total_supply: 1_000_000_000_000_000,
        complete: false,
        creator: Pubkey([4u8; 32]),
        is_mayhem_mode: false,
        is_cashback_coin: false,
    }
}

fn pool() -> SwapPool {
    SwapPool {
        pool_bump: 254,
        index: 0,
        creator: Pubkey([1u8; 32]),
        base_mint: Pubkey([2u8; 32]),
        quote_mint: Pubkey([3u8; 32]),
        lp_mint: Pubkey([0u8; 32]),
        pool_base_token_account: Pubkey([5u8; 32]),
        pool_quote_token_account: Pubkey([6u8; 32]),
        lp_supply: 0,
        coin_creator: Pubkey([1u8; 32]),
        is_mayhem_mode: false,
        is_cashback_coin: false,
    }
}

#[test]
fn one_sol_buys_on_fresh_curve() {
    let c = fresh_curve();
    assert_eq!(c.tokens_for_sol(1_000_000_000), Ok(34_277_831_558_567));
    assert_eq!(c.calculate_buy_cost(34_277_831_558_567), Ok((990_000_000, 9_900_000)));
}

#[test]
fn buy_plan_with_slippage() {
    let p = plan_buy(&fresh_curve(), 1_000_000_000, 500).unwrap();
    assert_eq!(p.token_amount, 34_277_831_558_567);
    assert_eq!(p.sol_cost, 990_000_000);
    assert_eq!(p.fee, 9_900_000);
    assert_eq!(p.max_sol_cost, 1_039_500_000);
    // The cost never exceeds the budget after the fee, plus one lamport.
    assert!(p.sol_cost <= 990_000_000 + 1);
}

#[test]
fn sell_output_and_plan() {
    let c = fresh_curve();
    assert_eq!(c.calculate_sell_output(1_000_000_000_000), Ok((27_653_631, 279_329)));
    let p = plan_sell(&c, 1_000_000_000_000, 500).unwrap();
    assert_eq!(p.sol_output, 27_653_631);
    assert_eq!(p.fee, 279_329);
    assert_eq!(p.min_sol_output, 26_270_950);
}

#[test]
fn complete_curve_refuses_trades() {
    let mut c = fresh_curve();
    c.complete = true;
    assert_eq!(c.tokens_for_sol(1), Err(CurveError::CompleteNoQuote));
    assert_eq!(CurveError::CompleteNoQuote.message(), "bonding curve is complete");
    assert_eq!(c.calculate_buy_cost(1), Err(CurveError::Complete));
    assert_eq!(c.calculate_sell_output(1), Err(CurveError::Complete));
    assert_eq!(plan_buy(&c, 1, 0), Err(CurveError::CompleteNoQuote));
    assert_eq!(
        CurveError::Complete.message(),
        "bonding curve is complete, trade on PumpSwap instead"
    );
}

#[test]
fn buying_more_than_the_curve_holds() {
    let mut c = fresh_curve();
    c.real_token_reserves = 1_000;
    assert_eq!(
        c.calculate_buy_cost(1_001),
        Err(CurveError::InsufficientTokens { want: 1_001, available: 1_000 })
    );
    assert_eq!(
        CurveError::InsufficientTokens { want: 1_001, available: 1_000 }.message(),
        "insufficient tokens on curve: want 1001 but only 1000 available"
    );
    assert_eq!(c.tokens_for_sol(1_000_000_000), Err(CurveError::NotEnoughTokens));
    assert_eq!(CurveError::NotEnoughTokens.message(), "not enough tokens on curve");
}

#[test]
fn buy_round_trip_keeps_curve_product_rising() {
    let c = fresh_curve();
    let tokens = 34_277_831_558_567u128;
    let (cost, _) = c.calculate_buy_cost(tokens as u64).unwrap();
    let before = c.virtual_sol_reserves as u128 * c.virtual_token_reserves as u128;
    let after = (c.virtual_sol_reserves as u128 + cost as u128)
        * (c.virtual_token_reserves as u128 - tokens);
    assert!(after > before);
}

#[test]
fn slippage_bounds() {
    assert_eq!(raise_by_slippage(1_000_000, 500), 1_050_000);
    assert_eq!(raise_by_slippage(999, 1), 999);
    assert_eq!(lower_by_slippage(1_000_000, 500), 950_000);
    assert_eq!(lower_by_slippage(1_000_000, 10_000), 0);
}

#[test]
fn swap_buy_and_sell_plans() {
    let p = plan_swap_buy(&pool(), 200_000_000_000_000, 85_000_000_000, 2_000_000_000, 300);
    assert_eq!(p.tokens_out, 4_586_470_486_809);
    assert_eq!(p.fee, 5_000_000);
    assert_eq!(p.max_sol_in, 2_060_000_000);
    let s = plan_swap_sell(&pool(), 200_000_000_000_000, 85_000_000_000, 5_000_000_000_000, 300);
    assert_eq!(s.sol_out, 2_067_987_805);
    assert_eq!(s.fee, 5_182_926);
    assert_eq!(s.min_sol_out, 2_005_948_171);
}

#[test]
fn swap_trades_keep_pool_product() {
    let (base, quote) = (200_000_000_000_000u128, 85_000_000_000u128);
    let (out, fee) = pool().calculate_buy(base as u64, quote as u64, 2_000_000_000).unwrap();
    let after_buy = (base - out as u128) * (quote + 2_000_000_000 - fee as u128);
    assert!(after_buy >= base * quote);
    let (sol_out, _) = pool().calculate_sell(base as u64, quote as u64, 5_000_000_000_000).unwrap();
    let after_sell = (base + 5_000_000_000_000) * (quote - sol_out as u128);
    assert!(after_sell >= base * quote);
}

#[test]
fn sell_amount_resolution() {
    assert_eq!(SellAmount::resolve(Some(1.5f64), Some(50), true), Ok(SellAmount::All));
    assert_eq!(SellAmount::resolve(Some(1.5f64), Some(50), false), Ok(SellAmount::Percent(50)));
    assert_eq!(SellAmount::resolve(Some(1.5f64), None, false), Ok(SellAmount::Exact(1.5)));
    assert_eq!(SellAmount::<f64>::resolve(None, None, false), Err(TradeError::NoSellAmount));
    assert_eq!(TradeError::NoSellAmount.message(), "specify --amount, --percent, or --all");
}

#[test]
fn tokens_to_sell_from_balance() {
    assert_eq!(tokens_to_sell(1_000, Some(25)), Ok(250));
    assert_eq!(tokens_to_sell(999, Some(50)), Ok(499));
    assert_eq!(tokens_to_sell(1_000, None), Ok(1_000));
    assert_eq!(tokens_to_sell(0, None), Err(TradeError::NoTokensToSell));
    assert_eq!(TradeError::NoTokensToSell.message(), "no tokens to sell");
}

#[test]
fn autosell_takes_a_share() {
    assert_eq!(autosell_amount(1_000, 100), 1_000);
    assert_eq!(autosell_amount(1_000, 250), 1_000);
    assert_eq!(autosell_amount(1_001, 50), 500);
    assert_eq!(autosell_amount(7, 0), 0);
}

#[test]
fn buy_then_sell_returns_less_than_paid() {
    let c = fresh_curve();
    let tokens = 34_277_831_558_567u64;
    let (cost, _) = c.calculate_buy_cost(tokens).unwrap();
    let mut after = c;
    after.virtual_sol_reserves += cost;
    after.virtual_token_reserves -= tokens;
    let (net, fee) = after.calculate_sell_output(tokens).unwrap();
    assert!(net + fee < cost);
}

#[test]
fn arithmetic_range_checks() {
    let c = fresh_curve();
    assert!(buy_plan_fits_check(&c, 1_000_000_000, 500));
    assert!(!buy_plan_fits_check(&c, u64::MAX, 500));
    assert!(sell_plan_fits_check(&c, 1_000_000_000_000, 500));
    assert!(!sell_plan_fits_check(&c, 1_000_000_000_000, 20_000));
    assert!(raise_fits_check(1_000, 500));
    assert!(!raise_fits_check(u64::MAX, 1));
    assert!(lower_fits_check(1_000, 10_000));
    assert!(!lower_fits_check(1_000, 10_001 * 10));
    assert!(share_fits_check(u64::MAX, 1));
    assert!(!share_fits_check(u64::MAX, 2));
    assert!(swap_buy_fits_check(85_000_000_000, 2_000_000_000, 300));
    assert!(!swap_buy_fits_check(0, 0, 0));
    assert!(swap_sell_fits_check(200_000_000_000_000, 85_000_000_000, 5_000_000_000_000, 300));
    assert!(!swap_sell_fits_check(0, 5, 0, 0));
    let mut done = c;
    done.complete = true;
    assert!(buy_plan_fits_check(&done, u64::MAX, u64::MAX));
}

#[test]
fn swap_buy_then_sell_returns_at_most_input() {
    let (base, quote, sol_in) = (200_000_000_000_000u64, 85_000_000_000u64, 2_000_000_000u64);
    let (out, fee) = pool().calculate_buy(base, quote, sol_in).unwrap();
    let entered = sol_in - fee;
    let (net, sell_fee) = pool().calculate_sell(base - out, quote + entered, out).unwrap();
    assert!(net + sell_fee <= entered);
    assert!(net < sol_in);
}

#[test]
fn token_quote_examples() {
    let mut c = BondingCurve {
        virtual_token_reserves: 1_000_000,
        virtual_sol_reserves: 1_000_000,
        real_token_reserves: 1_000_000,
        real_sol_reserves: 0,
        token_total_supply: 0,
        complete: false,
        creator: Pubkey([0u8; 32]),
        is_mayhem_mode: false,
        is_cashback_coin: false,
    };
    assert_eq!(c.tokens_for_sol(1_000_000), Ok(497_487));
    c.real_token_reserves = 497_486;
    assert_eq!(c.tokens_for_sol(1_000_000), Err(CurveError::NotEnoughTokens));
    c.complete = true;
    let e = c.tokens_for_sol(1_000_000).unwrap_err();
    assert_eq!(e.message(), "bonding curve is complete");
}
