use pump_cli::jito::{bundle_outcome, encode_bundle_transaction, select_tip_account, JitoError, TIP_ACCOUNTS};
use pump_cli::pubkey::Pubkey;

fn unique_key() -> Pubkey {
    Pubkey(solana_sdk::pubkey::Pubkey::new_unique().to_bytes())
}

#[test]
fn tip_account_deterministic() {
    let pk = unique_key();
    assert_eq!(select_tip_account(&pk), select_tip_account(&pk));
}

#[test]
fn tip_account_covers_all_slots() {
    let mut seen = std::collections::HashSet::new();
    for i in 0u8..8 {
        let mut bytes = [0u8; 32];
        bytes[0] = i;
        let pk = Pubkey::new_from_array(bytes);
        seen.insert(select_tip_account(&pk).to_bytes());
    }
    assert_eq!(seen.len(), 8, "all 8 tip accounts must be reachable");
}

#[test]
fn tip_account_uses_first_byte_modulo_eight() {
    let mut bytes = [7u8; 32];
    bytes[0] = 13;
    assert_eq!(select_tip_account(&Pubkey(bytes)), Pubkey(TIP_ACCOUNTS[5]));
    bytes[0] = 255;
    assert_eq!(select_tip_account(&Pubkey(bytes)), Pubkey(TIP_ACCOUNTS[7]));
}

#[test]
fn tip_accounts_match_base58_addresses() {
    let first: solana_sdk::pubkey::Pubkey = "96gYZGLnJYVFmbjzopPSU6QiEV5fGqZNyN9nmNhvrZU5".parse().unwrap();
    let last: solana_sdk::pubkey::Pubkey = "3AVi9Tg9Uo68tJfuvoKvqKNWKkC5wPdSSdeBnizKZ6jT".parse().unwrap();
    assert_eq!(TIP_ACCOUNTS[0], first.to_bytes());
    assert_eq!(TIP_ACCOUNTS[7], last.to_bytes());
}

#[test]
fn bundle_transaction_is_standard_base64() {
    assert_eq!(encode_bundle_transaction(b"hello"), "aGVsbG8=");
    assert_eq!(encode_bundle_transaction(&[0xfb, 0xff]), "+/8=");
    assert_eq!(encode_bundle_transaction(&[]), "");
}

#[test]
fn bundle_reply_interpretation() {
    let ok = bundle_outcome(None, Some("bundle-id".to_string()));
    assert_eq!(ok.unwrap(), "bundle-id");
    let rejected = bundle_outcome(Some("{\"code\":-32602}".to_string()), Some("x".to_string()));
    match rejected {
        Err(e @ JitoError::Rejected { .. }) => {
            assert_eq!(e.message(), "Jito rejected bundle: {\"code\":-32602}")
        }
        _ => panic!("expected a rejection"),
    }
    match bundle_outcome(None, None) {
        Err(e @ JitoError::MissingBundleId) => {
            assert_eq!(e.message(), "missing bundle ID in Jito response")
        }
        _ => panic!("expected a missing id"),
    }
}
