use pump_cli::config::Settings;
use pump_cli::constants::{COMPUTE_BUDGET_PROGRAM_ID, SYSTEM_PROGRAM_ID};
use pump_cli::instruction::Instruction;
use pump_cli::jito::select_tip_account;
use pump_cli::pubkey::Pubkey;
use pump_cli::signer::{assemble_instructions, TxOptions, DEFAULT_JITO_TIP};

fn unique_key() -> Pubkey {
    Pubkey(solana_sdk::pubkey::Pubkey::new_unique().to_bytes())
}

fn dummy_ix() -> Instruction {
    Instruction { program_id: unique_key(), accounts: vec![], data: vec![1, 2, 3] }
}

#[test]
fn assemble_default_no_extras() {
    let payer = unique_key();
    let opts = TxOptions::default();
    let ixs = assemble_instructions(&payer, vec![dummy_ix()], 100_000, &opts);
    assert_eq!(ixs.len(), 2); // cu_limit + user ix
}

#[test]
fn assemble_with_priority_fee() {
    let payer = unique_key();
    let opts = TxOptions { priority_fee: 50_000, ..Default::default() };
    let ixs = assemble_instructions(&payer, vec![dummy_ix()], 100_000, &opts);
    assert_eq!(ixs.len(), 3); // cu_limit + cu_price + user ix
}

#[test]
fn assemble_with_jito() {
    let payer = unique_key();
    let opts = TxOptions { jito: true, jito_tip: 10_000, ..Default::default() };
    let ixs = assemble_instructions(&payer, vec![dummy_ix()], 100_000, &opts);
    assert_eq!(ixs.len(), 3); // cu_limit + tip_transfer + user ix
}

#[test]
fn assemble_with_both() {
    let payer = unique_key();
    let opts = TxOptions { priority_fee: 50_000, jito: true, jito_tip: 25_000 };
    let ixs = assemble_instructions(&payer, vec![dummy_ix()], 100_000, &opts);
    assert_eq!(ixs.len(), 4); // cu_limit + cu_price + tip + user ix
}

#[test]
fn resolve_cli_overrides_config() {
    // This test just checks the precedence logic, not actual config loading
    let opts = TxOptions { priority_fee: 100, jito: false, jito_tip: 10_000 };
    assert_eq!(opts.priority_fee, 100);
    assert_eq!(opts.mode_label(), "rpc");
}

#[test]
fn resolve_precedence() {
    let mut settings = Settings::default();
    settings.priority_fee = Some(7);
    settings.jito_tip = Some(99);
    let o = TxOptions::resolve(Some(100), true, None, &settings);
    assert_eq!(o, TxOptions { priority_fee: 100, jito: true, jito_tip: 99 });
    assert_eq!(o.mode_label(), "jito");
    let o = TxOptions::resolve(None, false, Some(5), &settings);
    assert_eq!(o, TxOptions { priority_fee: 7, jito: false, jito_tip: 5 });
    let o = TxOptions::resolve(None, false, None, &Settings::default());
    assert_eq!(o, TxOptions { priority_fee: 0, jito: false, jito_tip: DEFAULT_JITO_TIP });
}

#[test]
fn assemble_layout_exact() {
    let payer = Pubkey([9u8; 32]);
    let user = dummy_ix();
    let opts = TxOptions { priority_fee: 0x0102, jito: true, jito_tip: 25_000 };
    let ixs = assemble_instructions(&payer, vec![user.clone()], 200_000, &opts);
    assert_eq!(ixs[0].program_id, Pubkey(COMPUTE_BUDGET_PROGRAM_ID));
    assert_eq!(ixs[0].data, vec![2, 0x40, 0x0d, 0x03, 0x00]);
    assert!(ixs[0].accounts.is_empty());
    assert_eq!(ixs[1].data, vec![3, 0x02, 0x01, 0, 0, 0, 0, 0, 0]);
    assert_eq!(ixs[2].program_id, Pubkey(SYSTEM_PROGRAM_ID));
    assert_eq!(ixs[2].data, vec![2, 0, 0, 0, 0xa8, 0x61, 0, 0, 0, 0, 0, 0]);
    assert_eq!(ixs[2].accounts[0].pubkey, payer);
    assert!(ixs[2].accounts[0].is_signer && ixs[2].accounts[0].is_writable);
    assert_eq!(ixs[2].accounts[1].pubkey, select_tip_account(&payer));
    assert!(!ixs[2].accounts[1].is_signer && ixs[2].accounts[1].is_writable);
    assert_eq!(ixs[3], user);
}
