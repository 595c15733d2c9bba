use pump_cli::rug_check::{check, parse_mint_authorities, RugCheckConfig, RugWarning};

fn mint_data(mint_auth: bool, freeze_auth: bool) -> Vec<u8> {
    let mut d = vec![0u8; 82];
    if mint_auth {
        d[0] = 1;
    }
    if freeze_auth {
        d[46] = 1;
    }
    d
}

#[test]
fn default_config_thresholds() {
    let c = RugCheckConfig::default();
    assert_eq!(c.min_creator_sol, Some(50_000_000));
    assert_eq!(c.min_creator_txns, Some(5));
    assert!(!c.reject_mint_authority);
    assert!(c.reject_freeze_authority);
}

#[test]
fn authorities_read_from_option_tags() {
    assert_eq!(parse_mint_authorities(&mint_data(true, false)), (true, false));
    assert_eq!(parse_mint_authorities(&mint_data(false, true)), (false, true));
    let mut d = mint_data(false, false);
    d[0] = 2;
    assert_eq!(parse_mint_authorities(&d), (false, false));
    assert_eq!(parse_mint_authorities(&[1, 0, 0, 0]), (true, false));
    assert_eq!(parse_mint_authorities(&[1, 0, 0]), (false, false));
}

#[test]
fn safe_token_has_no_warnings() {
    let data = mint_data(true, false);
    let r = check(Some(&data), Some(1_000_000_000), Some(20), &RugCheckConfig::default());
    assert!(r.mint_authority_active);
    assert!(!r.freeze_authority_active);
    assert!(r.is_safe());
    assert!(r.warnings.is_empty());
}

#[test]
fn every_warning_in_order() {
    let config = RugCheckConfig {
        min_creator_sol: Some(100),
        min_creator_txns: Some(3),
        reject_mint_authority: true,
        reject_freeze_authority: true,
    };
    let data = mint_data(true, true);
    let r = check(Some(&data), Some(99), Some(2), &config);
    assert!(!r.is_safe());
    assert_eq!(
        r.warnings,
        vec![
            RugWarning::MintAuthorityActive,
            RugWarning::FreezeAuthorityActive,
            RugWarning::LowCreatorBalance { balance: 99, min: 100 },
            RugWarning::FewCreatorTransactions { count: 2 },
        ]
    );
}

#[test]
fn failed_requests_count_as_zero() {
    let r = check(None, None, None, &RugCheckConfig::default());
    assert!(!r.mint_authority_active && !r.freeze_authority_active);
    assert_eq!(r.creator_sol_balance, 0);
    assert_eq!(r.creator_tx_count, 0);
    assert_eq!(
        r.warnings,
        vec![
            RugWarning::LowCreatorBalance { balance: 0, min: 50_000_000 },
            RugWarning::FewCreatorTransactions { count: 0 },
        ]
    );
}

#[test]
fn short_mint_account_is_not_read() {
    let mut data = mint_data(true, true);
    data.truncate(81);
    let r = check(Some(&data), Some(u64::MAX), Some(100), &RugCheckConfig::default());
    assert!(!r.mint_authority_active && !r.freeze_authority_active);
    assert!(r.is_safe());
}
