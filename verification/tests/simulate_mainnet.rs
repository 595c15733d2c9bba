use pump_cli::bonding_curve::BondingCurve;
use pump_cli::constants::{MAYHEM_PROGRAM_ID, PUMP_PROGRAM_ID};
use pump_cli::pda;
use pump_cli::pubkey::Pubkey;

fn find_program_address(seeds: &[&[u8]], program: &[u8; 32]) -> Pubkey {
    let program = solana_sdk::pubkey::Pubkey::new_from_array(*program);
    Pubkey(solana_sdk::pubkey::Pubkey::find_program_address(seeds, &program).0.to_bytes())
}

#[test]
fn negative_wrong_discriminator_rejected() {
    let mut data = vec![0u8; 8 + 75];
    data[..8].copy_from_slice(&[0xFF; 8]);
    assert!(BondingCurve::validate_discriminator(&data).is_err());
}

#[test]
fn negative_short_data_rejected() {
    let mut data = [0u8; 8 + 10];
    data[..8].copy_from_slice(&[23, 183, 248, 55, 96, 216, 172, 96]);
    assert!(BondingCurve::deserialize(&data[8..]).is_err());
}

#[test]
fn create_v2_pda_derivation_domains_correct() {
    let (gp, _) = pda::global_params_pda().unwrap();
    let (sv, _) = pda::sol_vault_pda().unwrap();
    let mint = Pubkey(solana_sdk::pubkey::Pubkey::new_unique().to_bytes());
    let (ms, _) = pda::mayhem_state_pda(&mint).unwrap();

    let exp_gp = find_program_address(&[b"global-params"], &MAYHEM_PROGRAM_ID);
    let exp_sv = find_program_address(&[b"sol-vault"], &MAYHEM_PROGRAM_ID);
    let exp_ms = find_program_address(&[b"mayhem-state", &mint.to_bytes()], &MAYHEM_PROGRAM_ID);

    assert_eq!(gp, exp_gp, "global_params domain");
    assert_eq!(sv, exp_sv, "sol_vault domain");
    assert_eq!(ms, exp_ms, "mayhem_state domain");

    let wrong = find_program_address(&[b"global-params"], &PUMP_PROGRAM_ID);
    assert_ne!(gp, wrong, "must NOT derive from PUMP_PROGRAM_ID");
}
