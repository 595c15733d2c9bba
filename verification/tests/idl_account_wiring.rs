use pump_cli::constants::{
    EVENT_AUTHORITY, FEE_RECIPIENT, MAYHEM_PROGRAM_ID, PUMP_PROGRAM_ID, TOKEN_2022_PROGRAM_ID,
};
use pump_cli::instructions;
use pump_cli::pubkey::Pubkey;
use pump_cli::pump_swap::SwapPool;
use pump_cli::token_accounts::get_ata;

fn parse_key(s: &str) -> Pubkey {
    let k: solana_sdk::pubkey::Pubkey = s.parse().unwrap();
    Pubkey(k.to_bytes())
}

fn test_fee_recipient() -> Pubkey {
    Pubkey(FEE_RECIPIENT)
}

fn test_user() -> Pubkey {
    parse_key("11111111111111111111111111111112")
}

fn test_mint() -> Pubkey {
    parse_key("So11111111111111111111111111111111111111112")
}

fn test_creator() -> Pubkey {
    parse_key("11111111111111111111111111111113")
}

fn spl_token_id() -> Pubkey {
    Pubkey(spl_token::id().to_bytes())
}

fn unique_key() -> Pubkey {
    Pubkey(solana_sdk::pubkey::Pubkey::new_unique().to_bytes())
}

fn find_program_address(seeds: &[&[u8]], program: &[u8; 32]) -> Pubkey {
    let program = solana_sdk::pubkey::Pubkey::new_from_array(*program);
    Pubkey(solana_sdk::pubkey::Pubkey::find_program_address(seeds, &program).0.to_bytes())
}

fn test_swap_pool() -> SwapPool {
    SwapPool {
        pool_bump: 255,
        index: 0,
        creator: test_creator(),
        base_mint: test_mint(),
        quote_mint: parse_key("So11111111111111111111111111111111111111112"),
        lp_mint: Pubkey([0u8; 32]),
        pool_base_token_account: Pubkey([0u8; 32]),
        pool_quote_token_account: Pubkey([0u8; 32]),
        lp_supply: 0,
        coin_creator: test_creator(),
        is_mayhem_mode: false,
        is_cashback_coin: false,
    }
}

#[test]
fn buy_account_flags() {
    let user = test_user();
    let ix = instructions::build_buy_ix(
        &user,
        &test_mint(),
        1_000_000,
        100_000_000,
        &test_creator(),
        &spl_token_id(),
        &test_fee_recipient(),
    )
    .unwrap();
    assert!(!ix.accounts[0].is_writable && !ix.accounts[0].is_signer);
    assert!(ix.accounts[1].is_writable);
    assert!(!ix.accounts[2].is_writable);
    assert!(ix.accounts[3].is_writable);
    assert!(ix.accounts[4].is_writable);
    assert!(ix.accounts[5].is_writable);
    assert!(ix.accounts[6].is_writable && ix.accounts[6].is_signer);
    assert_eq!(ix.accounts[6].pubkey, user);
    assert!(!ix.accounts[7].is_writable);
    assert!(!ix.accounts[8].is_writable);
    assert!(ix.accounts[9].is_writable);
    assert!(!ix.accounts[10].is_writable);
    assert!(!ix.accounts[11].is_writable);
    assert!(!ix.accounts[12].is_writable);
    assert!(ix.accounts[13].is_writable);
    assert!(!ix.accounts[14].is_writable);
    assert!(!ix.accounts[15].is_writable);
}

#[test]
fn sell_account_flags() {
    let ix = instructions::build_sell_ix(
        &test_user(),
        &test_mint(),
        1_000_000,
        50_000_000,
        &test_creator(),
        &spl_token_id(),
        &test_fee_recipient(),
    )
    .unwrap();
    assert!(!ix.accounts[0].is_writable);
    assert!(ix.accounts[1].is_writable);
    assert!(!ix.accounts[2].is_writable);
    assert!(ix.accounts[6].is_writable && ix.accounts[6].is_signer);
    assert!(!ix.accounts[7].is_writable);
    assert!(ix.accounts[8].is_writable);
    assert!(!ix.accounts[9].is_writable);
    assert!(!ix.accounts[12].is_writable);
    assert!(!ix.accounts[13].is_writable);
}

#[test]
fn buy_data_layout() {
    let ix = instructions::build_buy_ix(
        &test_user(),
        &test_mint(),
        42_000_000,
        1_500_000_000,
        &test_creator(),
        &spl_token_id(),
        &test_fee_recipient(),
    )
    .unwrap();
    assert_eq!(ix.data.len(), 25);
    assert_eq!(&ix.data[0..8], &instructions::PUMP_BUY_DISCRIMINATOR);
    assert_eq!(u64::from_le_bytes(ix.data[8..16].try_into().unwrap()), 42_000_000);
    assert_eq!(u64::from_le_bytes(ix.data[16..24].try_into().unwrap()), 1_500_000_000);
    assert_eq!(ix.data[24], 0);
}

#[test]
fn sell_data_layout() {
    let ix = instructions::build_sell_ix(
        &test_user(),
        &test_mint(),
        10_000_000,
        500_000_000,
        &test_creator(),
        &spl_token_id(),
        &test_fee_recipient(),
    )
    .unwrap();
    assert_eq!(ix.data.len(), 24);
    assert_eq!(&ix.data[0..8], &instructions::PUMP_SELL_DISCRIMINATOR);
    assert_eq!(u64::from_le_bytes(ix.data[8..16].try_into().unwrap()), 10_000_000);
    assert_eq!(u64::from_le_bytes(ix.data[16..24].try_into().unwrap()), 500_000_000);
}

#[test]
fn create_data_has_creator() {
    let user = test_user();
    let ix = instructions::build_create_ix(&user, &test_mint(), "Test", "T", "https://x.com")
        .unwrap();
    assert_eq!(&ix.data[ix.data.len() - 32..], &user.to_bytes()[..]);
}

#[test]
fn create_v2_data_has_flags() {
    let ix = instructions::build_create_v2_ix(
        &test_user(),
        &test_mint(),
        "T",
        "T",
        "https://x.com",
        &spl_token_id(),
        true,
        true,
    )
    .unwrap();
    let len = ix.data.len();
    assert_eq!(ix.data[len - 2], 1);
    assert_eq!(ix.data[len - 1], 1);
}

#[test]
fn create_v2_fixed_addresses() {
    let ix = instructions::build_create_v2_ix(
        &test_user(),
        &test_mint(),
        "T",
        "T",
        "https://x.com",
        &Pubkey(TOKEN_2022_PROGRAM_ID),
        false,
        false,
    )
    .unwrap();
    assert_eq!(ix.accounts[6].pubkey, parse_key("11111111111111111111111111111111"));
    assert_eq!(ix.accounts[7].pubkey, Pubkey(TOKEN_2022_PROGRAM_ID));
    assert_eq!(ix.accounts[8].pubkey, Pubkey(spl_associated_token_account::id().to_bytes()));
    assert_eq!(ix.accounts[9].pubkey, Pubkey(MAYHEM_PROGRAM_ID));
    assert!(ix.accounts[9].is_writable);
    assert_eq!(ix.accounts[14].pubkey, Pubkey(EVENT_AUTHORITY));
    assert_eq!(ix.accounts[15].pubkey, Pubkey(PUMP_PROGRAM_ID));
}

#[test]
fn create_v2_forces_token2022() {
    let ix = instructions::build_create_v2_ix(
        &test_user(),
        &test_mint(),
        "T",
        "T",
        "https://x.com",
        &spl_token_id(),
        false,
        false,
    )
    .unwrap();
    assert_eq!(ix.accounts[7].pubkey, Pubkey(TOKEN_2022_PROGRAM_ID));
}

#[test]
fn create_v2_pda_domains() {
    let ix = instructions::build_create_v2_ix(
        &test_user(),
        &test_mint(),
        "T",
        "T",
        "https://x.com",
        &Pubkey(TOKEN_2022_PROGRAM_ID),
        false,
        false,
    )
    .unwrap();
    let exp_gp = find_program_address(&[b"global-params"], &MAYHEM_PROGRAM_ID);
    let exp_sv = find_program_address(&[b"sol-vault"], &MAYHEM_PROGRAM_ID);
    let exp_ms = find_program_address(&[b"mayhem-state", &test_mint().to_bytes()], &MAYHEM_PROGRAM_ID);
    assert_eq!(ix.accounts[10].pubkey, exp_gp);
    assert_eq!(ix.accounts[11].pubkey, exp_sv);
    assert_eq!(ix.accounts[12].pubkey, exp_ms);
}

#[test]
fn create_v2_all_flags() {
    let ix = instructions::build_create_v2_ix(
        &test_user(),
        &test_mint(),
        "T",
        "T",
        "https://x.com",
        &Pubkey(TOKEN_2022_PROGRAM_ID),
        true,
        true,
    )
    .unwrap();
    assert!(ix.accounts[0].is_writable && ix.accounts[0].is_signer);
    assert!(!ix.accounts[1].is_writable && !ix.accounts[1].is_signer);
    assert!(ix.accounts[2].is_writable);
    assert!(ix.accounts[3].is_writable);
    assert!(!ix.accounts[4].is_writable);
    assert!(ix.accounts[5].is_writable && ix.accounts[5].is_signer);
    assert!(!ix.accounts[6].is_writable);
    assert!(!ix.accounts[7].is_writable);
    assert!(!ix.accounts[8].is_writable);
    assert!(ix.accounts[9].is_writable);
    assert!(!ix.accounts[10].is_writable);
    assert!(ix.accounts[11].is_writable);
    assert!(ix.accounts[12].is_writable);
    assert!(ix.accounts[13].is_writable);
    assert!(!ix.accounts[14].is_writable);
    assert!(!ix.accounts[15].is_writable);
}

#[test]
fn swap_pool_mayhem_cashback() {
    let mut data = vec![0u8; 237];
    data[235] = 1;
    data[236] = 1;
    let pool = SwapPool::deserialize(&data).unwrap();
    assert!(pool.is_mayhem_mode);
    assert!(pool.is_cashback_coin);
}

#[test]
fn swap_buy_dynamic_recipient() {
    let r = unique_key();
    let ix = instructions::build_swap_buy_ix(
        &test_user(),
        &test_user(),
        &test_swap_pool(),
        1_000_000,
        100_000_000,
        &spl_token_id(),
        &spl_token_id(),
        &r,
    )
    .unwrap();
    assert_eq!(ix.accounts[9].pubkey, r);
    assert!(!ix.accounts[9].is_writable);
    let ata = get_ata(&r, &test_swap_pool().quote_mint, &spl_token_id()).unwrap();
    assert_eq!(ix.accounts[10].pubkey, ata);
}

#[test]
fn swap_sell_dynamic_recipient() {
    let r = unique_key();
    let ix = instructions::build_swap_sell_ix(
        &test_user(),
        &test_user(),
        &test_swap_pool(),
        1_000_000,
        50_000_000,
        &spl_token_id(),
        &spl_token_id(),
        &r,
    )
    .unwrap();
    assert_eq!(ix.accounts[9].pubkey, r);
    let ata = get_ata(&r, &test_swap_pool().quote_mint, &spl_token_id()).unwrap();
    assert_eq!(ix.accounts[10].pubkey, ata);
}

#[test]
fn token2022_extended_data() {
    let mut data = vec![0u8; 165];
    let mint_bytes = [42u8; 32];
    data[0..32].copy_from_slice(&mint_bytes);
    data[64..72].copy_from_slice(&1_000_000u64.to_le_bytes());

    let mut extended = data.clone();
    extended.extend_from_slice(&[0u8; 100]);

    for d in &[&data[..], &extended[..]] {
        assert!(d.len() >= 72);
        assert_eq!(Pubkey::read_at(d, 0).to_bytes(), mint_bytes);
        assert_eq!(u64::from_le_bytes(d[64..72].try_into().unwrap()), 1_000_000);
    }
}

#[test]
fn ata_matches_spl_associated_token_account() {
    let owner = unique_key();
    let mint = unique_key();
    for program in [spl_token_id(), Pubkey(TOKEN_2022_PROGRAM_ID)] {
        let expected = spl_associated_token_account::get_associated_token_address_with_program_id(
            &solana_sdk::pubkey::Pubkey::new_from_array(owner.to_bytes()),
            &solana_sdk::pubkey::Pubkey::new_from_array(mint.to_bytes()),
            &solana_sdk::pubkey::Pubkey::new_from_array(program.to_bytes()),
        );
        assert_eq!(get_ata(&owner, &mint, &program).unwrap(), Pubkey(expected.to_bytes()));
    }
}

#[test]
fn buy_accounts_exact() {
    let user = test_user();
    let mint = test_mint();
    let creator = test_creator();
    let tp = spl_token_id();
    let ix = instructions::build_buy_ix(&user, &mint, 1, 2, &creator, &tp, &test_fee_recipient())
        .unwrap();
    let bc = find_program_address(&[b"bonding-curve", &mint.to_bytes()], &PUMP_PROGRAM_ID);
    let fees = pump_cli::constants::PUMP_FEES_PROGRAM_ID;
    assert_eq!(ix.program_id, Pubkey(PUMP_PROGRAM_ID));
    assert_eq!(ix.accounts[0].pubkey, Pubkey(pump_cli::constants::PUMP_GLOBAL));
    assert_eq!(ix.accounts[1].pubkey, test_fee_recipient());
    assert_eq!(ix.accounts[3].pubkey, bc);
    assert_eq!(ix.accounts[4].pubkey, get_ata(&bc, &mint, &tp).unwrap());
    assert_eq!(ix.accounts[5].pubkey, get_ata(&user, &mint, &tp).unwrap());
    assert_eq!(
        ix.accounts[9].pubkey,
        find_program_address(&[b"creator-vault", &creator.to_bytes()], &PUMP_PROGRAM_ID)
    );
    assert_eq!(
        ix.accounts[12].pubkey,
        find_program_address(&[b"global_volume_accumulator"], &PUMP_PROGRAM_ID)
    );
    assert_eq!(
        ix.accounts[13].pubkey,
        find_program_address(&[b"user_volume_accumulator", &user.to_bytes()], &PUMP_PROGRAM_ID)
    );
    assert_eq!(
        ix.accounts[14].pubkey,
        find_program_address(&[b"fee_config", &PUMP_PROGRAM_ID], &fees)
    );
    assert_eq!(ix.accounts[15].pubkey, Pubkey(fees));
}

#[test]
fn create_data_borsh_strings() {
    let user = test_user();
    let ix = instructions::build_create_ix(&user, &test_mint(), "Ab", "C", "xyz").unwrap();
    let mut expected = instructions::PUMP_CREATE_DISCRIMINATOR.to_vec();
    expected.extend_from_slice(&[2, 0, 0, 0, b'A', b'b', 1, 0, 0, 0, b'C', 3, 0, 0, 0, b'x', b'y', b'z']);
    expected.extend_from_slice(&user.to_bytes());
    assert_eq!(ix.data, expected);
    assert_eq!(instructions::borsh_string("é"), vec![2, 0, 0, 0, 0xc3, 0xa9]);
}
