use pump_cli::constants::FEE_RECIPIENT;
use pump_cli::instructions;
use pump_cli::pubkey::Pubkey;
use pump_cli::pump_swap::SwapPool;

fn parse_key(s: &str) -> Pubkey {
    let k: solana_sdk::pubkey::Pubkey = s.parse().unwrap();
    Pubkey(k.to_bytes())
}

fn test_fee_recipient() -> Pubkey {
    Pubkey(FEE_RECIPIENT)
}

fn test_user() -> Pubkey {
    parse_key("11111111111111111111111111111112")
}

fn test_mint() -> Pubkey {
    parse_key("So11111111111111111111111111111111111111112")
}

fn test_creator() -> Pubkey {
    parse_key("11111111111111111111111111111113")
}

fn spl_token_id() -> Pubkey {
    Pubkey(spl_token::id().to_bytes())
}

fn test_swap_pool() -> SwapPool {
    SwapPool {
        pool_bump: 255,
        index: 0,
        creator: test_creator(),
        base_mint: test_mint(),
        quote_mint: parse_key("So11111111111111111111111111111111111111112"),
        lp_mint: Pubkey([0u8; 32]),
        pool_base_token_account: Pubkey([0u8; 32]),
        pool_quote_token_account: Pubkey([0u8; 32]),
        lp_supply: 0,
        coin_creator: test_creator(),
        is_mayhem_mode: false,
        is_cashback_coin: false,
    }
}

#[test]
fn buy_16() {
    let ix = instructions::build_buy_ix(
        &test_user(),
        &test_mint(),
        1_000_000,
        100_000_000,
        &test_creator(),
        &spl_token_id(),
        &test_fee_recipient(),
    )
    .unwrap();
    assert_eq!(ix.accounts.len(), instructions::PUMP_BUY_ACCOUNT_COUNT);
}

#[test]
fn sell_14() {
    let ix = instructions::build_sell_ix(
        &test_user(),
        &test_mint(),
        1_000_000,
        50_000_000,
        &test_creator(),
        &spl_token_id(),
        &test_fee_recipient(),
    )
    .unwrap();
    assert_eq!(ix.accounts.len(), instructions::PUMP_SELL_ACCOUNT_COUNT);
}

#[test]
fn create_14() {
    let ix = instructions::build_create_ix(&test_user(), &test_mint(), "T", "T", "https://x.com")
        .unwrap();
    assert_eq!(ix.accounts.len(), instructions::PUMP_CREATE_ACCOUNT_COUNT);
}

#[test]
fn create_v2_16() {
    let ix = instructions::build_create_v2_ix(
        &test_user(),
        &test_mint(),
        "T",
        "T",
        "https://x.com",
        &spl_token_id(),
        false,
        false,
    )
    .unwrap();
    assert_eq!(ix.accounts.len(), instructions::PUMP_CREATE_V2_ACCOUNT_COUNT);
}

#[test]
fn swap_buy_23() {
    let ix = instructions::build_swap_buy_ix(
        &test_user(),
        &test_user(),
        &test_swap_pool(),
        1_000_000,
        100_000_000,
        &spl_token_id(),
        &spl_token_id(),
        &test_fee_recipient(),
    )
    .unwrap();
    assert_eq!(ix.accounts.len(), instructions::PUMP_SWAP_BUY_ACCOUNT_COUNT);
}

#[test]
fn swap_sell_21() {
    let ix = instructions::build_swap_sell_ix(
        &test_user(),
        &test_user(),
        &test_swap_pool(),
        1_000_000,
        50_000_000,
        &spl_token_id(),
        &spl_token_id(),
        &test_fee_recipient(),
    )
    .unwrap();
    assert_eq!(ix.accounts.len(), instructions::PUMP_SWAP_SELL_ACCOUNT_COUNT);
}
