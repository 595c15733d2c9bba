use pump_cli::constants::{
    EVENT_AUTHORITY, FEE_RECIPIENT, MAYHEM_PROGRAM_ID, PUMP_GLOBAL, PUMP_PROGRAM_ID,
    RENT_SYSVAR_ID, SYSTEM_PROGRAM_ID, TOKEN_2022_PROGRAM_ID,
};
use pump_cli::pubkey::Pubkey;
use pump_cli::bonding_curve::{BondingCurve, CurveError};
use pump_cli::snipe::{
    curve_sol_filter, extract_mint_from_logs, is_create_transaction, is_mint_candidate,
    known_program, rpc_to_ws, snipe_curve_step, snipe_logs_step, CurveFilter, CurveStep,
    LogsStep,
};
use pump_cli::trade::plan_buy;

fn b58(k: &Pubkey) -> String {
    bs58::encode(k.0).into_string()
}

fn fresh() -> Pubkey {
    Pubkey(solana_sdk::pubkey::Pubkey::new_unique().to_bytes())
}

fn lines(v: &[&str]) -> Vec<String> {
    v.iter().map(|s| s.to_string()).collect()
}

#[test]
fn rpc_to_ws_rewrites_schemes() {
    assert_eq!(rpc_to_ws("https://api.mainnet-beta.solana.com"), "wss://api.mainnet-beta.solana.com");
    assert_eq!(rpc_to_ws("http://127.0.0.1:8899"), "ws://127.0.0.1:8899");
    assert_eq!(rpc_to_ws("https://a.example/http://b"), "wss://a.example/ws://b");
    assert_eq!(rpc_to_ws("wss://already"), "wss://already");
    assert_eq!(rpc_to_ws(""), "");
}

#[test]
fn mint_found_in_program_log() {
    let mint = fresh();
    let logs = lines(&[
        "Program 6EF8rrecthR5Dkzon8Nwu78hRvfCKubJ14M5uBEwF6P invoke [1]",
        "Program log: Instruction: Create",
        &format!("Program log: mint={}, ok", b58(&mint)),
    ]);
    // "mint=<address>," trims to "mint=<address>", longer than 44 bytes.
    assert_eq!(extract_mint_from_logs(&logs), None);
    let word = format!("Program log: created ({})", b58(&mint));
    assert_eq!(extract_mint_from_logs(&lines(&[&word])), Some(mint));
}

#[test]
fn known_addresses_are_skipped() {
    let mint = fresh();
    let line = format!(
        "Program log: {} {} {} {}",
        b58(&Pubkey(PUMP_PROGRAM_ID)),
        b58(&Pubkey(PUMP_GLOBAL)),
        b58(&Pubkey(EVENT_AUTHORITY)),
        b58(&mint)
    );
    assert_eq!(extract_mint_from_logs(&lines(&[&line])), Some(mint));
    let only_known = format!(
        "Program log: {} {} {}",
        b58(&Pubkey(SYSTEM_PROGRAM_ID)),
        b58(&Pubkey(TOKEN_2022_PROGRAM_ID)),
        "TokenkegQfeZyiNwAJbNbGKPFXCWuBvf9Ss623VQ5DA"
    );
    assert_eq!(extract_mint_from_logs(&lines(&[&only_known])), None);
}

#[test]
fn only_program_log_lines_are_read() {
    let mint = fresh();
    let data_line = format!("Program data: {}", b58(&mint));
    let bare = b58(&mint);
    assert_eq!(extract_mint_from_logs(&lines(&[&data_line, &bare])), None);
    assert_eq!(extract_mint_from_logs(&Vec::new()), None);
}

#[test]
fn first_mint_wins_across_lines() {
    let first = fresh();
    let second = fresh();
    let l1 = format!("Program log: {}", b58(&first));
    let l2 = format!("Program log: {}", b58(&second));
    assert_eq!(extract_mint_from_logs(&lines(&["Program log: nothing here", &l1, &l2])), Some(first));
}

#[test]
fn short_or_invalid_words_are_ignored() {
    let logs = lines(&[
        "Program log: abc 123 x",
        "Program log: 0OIl0OIl0OIl0OIl0OIl0OIl0OIl0OIl0OIl",
    ]);
    assert_eq!(extract_mint_from_logs(&logs), None);
}

#[test]
fn create_transactions_are_recognised() {
    assert!(is_create_transaction(&lines(&["Program log: Instruction: Create"])));
    assert!(is_create_transaction(&lines(&["x", "Program log: Instruction: CreateV2"])));
    assert!(!is_create_transaction(&lines(&["Program log: Instruction: Buy"])));
    assert!(!is_create_transaction(&lines(&["Instruction: Creat"])));
    assert!(!is_create_transaction(&Vec::new()));
}

#[test]
fn known_program_list() {
    for k in [
        PUMP_PROGRAM_ID,
        PUMP_GLOBAL,
        EVENT_AUTHORITY,
        FEE_RECIPIENT,
        SYSTEM_PROGRAM_ID,
        RENT_SYSVAR_ID,
        TOKEN_2022_PROGRAM_ID,
        MAYHEM_PROGRAM_ID,
        spl_token::id().to_bytes(),
        spl_associated_token_account::id().to_bytes(),
    ] {
        assert!(known_program(&Pubkey(k)));
    }
    assert!(!known_program(&fresh()));
}

#[test]
fn mint_candidates() {
    let key = fresh();
    let spl = Pubkey(spl_token::id().to_bytes());
    let t22 = Pubkey(TOKEN_2022_PROGRAM_ID);
    assert!(is_mint_candidate(&key, &spl, 82));
    assert!(is_mint_candidate(&key, &t22, 300));
    assert!(!is_mint_candidate(&key, &spl, 81));
    assert!(!is_mint_candidate(&key, &Pubkey(SYSTEM_PROGRAM_ID), 82));
    assert!(!is_mint_candidate(&Pubkey(PUMP_PROGRAM_ID), &spl, 82));
}

#[test]
fn curve_sol_bounds() {
    assert_eq!(curve_sol_filter(5, None, None), CurveFilter::Accept);
    assert_eq!(curve_sol_filter(5, Some(6), None), CurveFilter::BelowMin);
    assert_eq!(curve_sol_filter(5, Some(5), Some(5)), CurveFilter::Accept);
    assert_eq!(curve_sol_filter(7, Some(1), Some(6)), CurveFilter::AboveMax);
    assert_eq!(curve_sol_filter(0, Some(1), Some(0)), CurveFilter::BelowMin);
}

fn fresh_curve() -> BondingCurve {
    BondingCurve {
        virtual_token_reserves: 1_073_000_000_000_000,
        virtual_sol_reserves: 30_000_000_000,
        real_token_reserves: 793_100_000_000_000,
        real_sol_reserves: 2_000_000_000,
        token_total_supply: 1_000_000_000_000_000,
        complete: false,
        creator: Pubkey([4u8; 32]),
        is_mayhem_mode: false,
        is_cashback_coin: false,
    }
}

#[test]
fn logs_step_follows_successful_creates_only() {
    let mint = fresh();
    let with_mint = lines(&["Program log: Instruction: Create", &format!("Program log: {}", b58(&mint))]);
    assert_eq!(snipe_logs_step(&with_mint, false), LogsStep::Mint(mint));
    assert_eq!(snipe_logs_step(&with_mint, true), LogsStep::Ignore);
    let no_mint = lines(&["Program log: Instruction: Create"]);
    assert_eq!(snipe_logs_step(&no_mint, false), LogsStep::LookUpTransaction);
    let buy = lines(&["Program log: Instruction: Buy", &format!("Program log: {}", b58(&mint))]);
    assert_eq!(snipe_logs_step(&buy, false), LogsStep::Ignore);
}

#[test]
fn curve_step_order_of_checks() {
    let c = fresh_curve();
    assert_eq!(snipe_curve_step(None, None, None, 1_000_000_000, 500), CurveStep::NotFound);
    assert_eq!(
        snipe_curve_step(Some(Err(CurveError::InvalidDiscriminator)), None, None, 1, 0),
        CurveStep::NotReady(CurveError::InvalidDiscriminator)
    );
    assert_eq!(
        snipe_curve_step(Some(Ok(c)), Some(3_000_000_000), Some(1), 1_000_000_000, 500),
        CurveStep::Skip(CurveFilter::BelowMin)
    );
    assert_eq!(
        snipe_curve_step(Some(Ok(c)), None, Some(1_000_000_000), 1_000_000_000, 500),
        CurveStep::Skip(CurveFilter::AboveMax)
    );
    assert_eq!(snipe_curve_step(Some(Ok(c)), None, None, u64::MAX, 500), CurveStep::OutOfRange);
    let plan = plan_buy(&c, 1_000_000_000, 500).unwrap();
    assert_eq!(snipe_curve_step(Some(Ok(c)), Some(1), None, 1_000_000_000, 500), CurveStep::Buy(plan));
    let mut done = c;
    done.complete = true;
    assert_eq!(
        snipe_curve_step(Some(Ok(done)), None, None, 1_000_000_000, 500),
        CurveStep::QuoteFailed(CurveError::CompleteNoQuote)
    );
}

#[test]
fn words_split_at_any_whitespace() {
    let a = fresh();
    let b = fresh();
    for sep in [" ", "\n", "\u{a0}", "\t", "  "] {
        let line = format!("Program log: {}{}{}", b58(&a), sep, b58(&b));
        assert_eq!(extract_mint_from_logs(&lines(&[&line])), Some(a), "{sep:?}");
    }
    let glued = format!("Program log: {}{}", b58(&a), b58(&b));
    assert_eq!(extract_mint_from_logs(&lines(&[&glued])), None);
}
