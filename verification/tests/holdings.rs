use pump_cli::constants::TOKEN_2022_PROGRAM_ID;
use pump_cli::pubkey::Pubkey;
use pump_cli::text::parse_u64;
use pump_cli::token_accounts::{
    balance_from_reply, collect_holdings, token_account_size_filter, token_holding,
};

fn account(mint: [u8; 32], amount: u64, len: usize) -> Vec<u8> {
    let mut data = vec![0u8; len];
    data[..32].copy_from_slice(&mint);
    data[32..64].copy_from_slice(&[9u8; 32]);
    data[64..72].copy_from_slice(&amount.to_le_bytes());
    data
}

#[test]
fn holding_read_from_account_data() {
    let data = account([1u8; 32], 1_234_567, 165);
    assert_eq!(token_holding(&data), Some((Pubkey([1u8; 32]), 1_234_567)));
    let t22 = account([2u8; 32], u64::MAX, 250);
    assert_eq!(token_holding(&t22), Some((Pubkey([2u8; 32]), u64::MAX)));
}

#[test]
fn empty_or_short_accounts_have_no_holding() {
    assert_eq!(token_holding(&account([1u8; 32], 0, 165)), None);
    assert_eq!(token_holding(&account([1u8; 32], 5, 72)[..71]), None);
    assert_eq!(token_holding(&account([3u8; 32], 5, 72)), Some((Pubkey([3u8; 32]), 5)));
}

#[test]
fn holdings_collected_in_order() {
    let accounts = vec![
        account([1u8; 32], 10, 165),
        account([2u8; 32], 0, 165),
        vec![0u8; 40],
        account([3u8; 32], 30, 182),
    ];
    let mut holdings = vec![(Pubkey([7u8; 32]), 7)];
    collect_holdings(&accounts, &mut holdings);
    assert_eq!(
        holdings,
        vec![(Pubkey([7u8; 32]), 7), (Pubkey([1u8; 32]), 10), (Pubkey([3u8; 32]), 30)]
    );
}

#[test]
fn size_filter_only_for_spl_token() {
    assert_eq!(token_account_size_filter(&Pubkey(spl_token::id().to_bytes())), Some(165));
    assert_eq!(token_account_size_filter(&Pubkey(TOKEN_2022_PROGRAM_ID)), None);
}

#[test]
fn balance_reply_parsing() {
    assert_eq!(balance_from_reply("1234567"), 1_234_567);
    assert_eq!(balance_from_reply("+42"), 42);
    assert_eq!(balance_from_reply("0007"), 7);
    assert_eq!(balance_from_reply("18446744073709551615"), u64::MAX);
    assert_eq!(balance_from_reply("18446744073709551616"), 0);
    assert_eq!(balance_from_reply(""), 0);
    assert_eq!(balance_from_reply("+"), 0);
    assert_eq!(balance_from_reply("-1"), 0);
    assert_eq!(balance_from_reply("12.5"), 0);
    assert_eq!(balance_from_reply(" 1"), 0);
}

#[test]
fn decimal_parse_matches_std() {
    for s in ["0", "+0", "99999999999999999999", "1e3", "٣", "+-1", "123", "00"] {
        assert_eq!(parse_u64(s), s.parse::<u64>().ok(), "{s}");
    }
}
