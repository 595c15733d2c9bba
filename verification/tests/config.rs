use pump_cli::config::Settings;

#[test]
fn default_settings() {
    let s = Settings::default();
    assert_eq!(s.rpc_url, "https://api.mainnet-beta.solana.com");
    assert_eq!(s.active_key, "default");
    assert_eq!(s.output, "table");
    assert_eq!(s.priority_fee, None);
    assert_eq!(s.jito_tip, None);
}

#[test]
fn set_known_keys() {
    let mut s = Settings::default();
    assert!(s.set("rpc_url", "http://localhost:8899").is_ok());
    assert_eq!(s.rpc_url, "http://localhost:8899");
    assert!(s.set("active_key", "trader").is_ok());
    assert_eq!(s.active_key, "trader");
    assert!(s.set("output", "json").is_ok());
    assert_eq!(s.output, "json");
    assert_eq!(s.rpc_url, "http://localhost:8899");
}

#[test]
fn unknown_key_changes_nothing() {
    let mut s = Settings::default();
    let err = s.set("rpc", "x").unwrap_err();
    assert_eq!(err.key, "rpc");
    assert_eq!(err.message(), "unknown config key: rpc. valid: rpc_url, active_key, output");
    assert_eq!(s.rpc_url, "https://api.mainnet-beta.solana.com");
    assert_eq!(s.active_key, "default");
    assert_eq!(s.output, "table");
}
