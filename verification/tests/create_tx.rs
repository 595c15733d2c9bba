use pump_cli::constants::{COMPUTE_BUDGET_PROGRAM_ID, PUMP_PROGRAM_ID};
use pump_cli::create::{
    create_transaction_instructions, create_v2_transaction_instructions, CREATE_V2_CU_LIMIT,
    LEGACY_CREATE_CU_LIMIT,
};
use pump_cli::instructions::{build_create_ix, build_create_v2_ix};
use pump_cli::pubkey::Pubkey;

fn fresh() -> Pubkey {
    Pubkey(solana_sdk::pubkey::Pubkey::new_unique().to_bytes())
}

#[test]
fn legacy_create_transaction() {
    let (user, mint) = (fresh(), fresh());
    let ixs = create_transaction_instructions(&user, &mint, "Name", "SYM", "ipfs://x").unwrap();
    assert_eq!(ixs.len(), 2);
    assert_eq!(ixs[0].program_id, Pubkey(COMPUTE_BUDGET_PROGRAM_ID));
    let mut data = vec![2u8];
    data.extend_from_slice(&200_000u32.to_le_bytes());
    assert_eq!(ixs[0].data, data);
    assert_eq!(LEGACY_CREATE_CU_LIMIT, 200_000);
    assert_eq!(ixs[1], build_create_ix(&user, &mint, "Name", "SYM", "ipfs://x").unwrap());
    assert_eq!(ixs[1].program_id, Pubkey(PUMP_PROGRAM_ID));
}

#[test]
fn create_v2_transaction() {
    let (user, mint, tp) = (fresh(), fresh(), fresh());
    let ixs =
        create_v2_transaction_instructions(&user, &mint, "N", "S", "U", &tp, true, false).unwrap();
    assert_eq!(ixs.len(), 2);
    let mut data = vec![2u8];
    data.extend_from_slice(&300_000u32.to_le_bytes());
    assert_eq!(ixs[0].data, data);
    assert_eq!(CREATE_V2_CU_LIMIT, 300_000);
    assert_eq!(ixs[1], build_create_v2_ix(&user, &mint, "N", "S", "U", &tp, true, false).unwrap());
}
