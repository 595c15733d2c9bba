use pump_cli::pubkey::Pubkey;
use pump_cli::wallet::{
    generate_keypair, import_from_bytes, import_from_seed_phrase, import_key,
    keypair_from_entropy, keypair_from_stored_bytes, KeyError,
};
use solana_sdk::signer::{SeedDerivable, Signer};

const ABANDON: &str =
    "abandon abandon abandon abandon abandon abandon abandon abandon abandon abandon abandon about";

fn reference_keypair(secret: [u8; 32]) -> solana_sdk::signature::Keypair {
    solana_sdk::signature::Keypair::new_from_array(secret)
}

fn keypair_of_phrase(phrase: &str) -> solana_sdk::signature::Keypair {
    let seed = bip39::Mnemonic::parse(phrase).unwrap().to_seed("");
    solana_sdk::signature::Keypair::from_seed(&seed[..32]).unwrap()
}

#[test]
fn import_full_keypair_bytes() {
    let kp = reference_keypair([7u8; 32]);
    let bytes = kp.to_bytes();
    let imported = import_from_bytes(&bytes).unwrap();
    assert_eq!(imported.to_bytes(), bytes);
    assert_eq!(imported.pubkey(), Pubkey(kp.pubkey().to_bytes()));
}

#[test]
fn import_secret_key_derives_public_key() {
    let kp = reference_keypair([42u8; 32]);
    let from_secret = import_from_bytes(&[42u8; 32]).unwrap();
    assert_eq!(from_secret.to_bytes(), kp.to_bytes());
    assert_eq!(from_secret.pubkey(), Pubkey(kp.pubkey().to_bytes()));
    assert_ne!(&from_secret.to_bytes()[32..], &[42u8; 32][..]);
}

#[test]
fn secret_and_full_import_agree() {
    let kp = reference_keypair([3u8; 32]);
    let full = import_from_bytes(&kp.to_bytes()).unwrap();
    let secret = import_from_bytes(&kp.to_bytes()[..32]).unwrap();
    assert_eq!(full.to_bytes(), secret.to_bytes());
}

#[test]
fn stored_bytes_read_back() {
    let kp = reference_keypair([9u8; 32]);
    let stored = import_from_bytes(&kp.to_bytes()).unwrap().to_bytes();
    let read = keypair_from_stored_bytes(&stored).unwrap();
    assert_eq!(read.to_bytes(), stored);
}

#[test]
fn wrong_length_rejected() {
    let err = import_from_bytes(&[1u8; 33]).err().unwrap();
    assert_eq!(err, KeyError::WrongLength { len: 33 });
    assert_eq!(err.message(), "expected 32 or 64 bytes, got 33");
    assert_eq!(import_from_bytes(&[]).err(), Some(KeyError::WrongLength { len: 0 }));
}

#[test]
fn mismatched_public_key_rejected() {
    let kp = reference_keypair([5u8; 32]);
    let mut bytes = kp.to_bytes();
    bytes[63] ^= 1;
    assert_eq!(import_from_bytes(&bytes).err(), Some(KeyError::InvalidKeypair));
    assert_eq!(keypair_from_stored_bytes(&bytes).err(), Some(KeyError::CorruptedKeyFile));
    assert_eq!(keypair_from_stored_bytes(&bytes[..32]).err(), Some(KeyError::CorruptedKeyFile));
}

#[test]
fn seed_phrase_import_matches_bip39_derivation() {
    let kp = import_from_seed_phrase(ABANDON).unwrap();
    assert_eq!(kp.to_bytes(), keypair_of_phrase(ABANDON).to_bytes());
}

#[test]
fn invalid_seed_phrase_rejected() {
    let err = import_from_seed_phrase("abandon abandon abandon").err().unwrap();
    assert_eq!(err, KeyError::InvalidMnemonic);
    assert_eq!(err.message(), "invalid mnemonic phrase");
}

#[test]
fn zero_entropy_gives_abandon_phrase() {
    let (phrase, kp) = keypair_from_entropy([0u8; 16]);
    assert_eq!(phrase, ABANDON);
    assert_eq!(kp.to_bytes(), keypair_of_phrase(ABANDON).to_bytes());
}

#[test]
fn generated_keypair_matches_its_phrase() {
    let (phrase, kp) = generate_keypair();
    assert_eq!(phrase.split_whitespace().count(), 12);
    let again = import_from_seed_phrase(&phrase).unwrap();
    assert_eq!(again.to_bytes(), kp.to_bytes());
}

#[test]
fn import_key_from_base58_private_key() {
    let kp = reference_keypair([11u8; 32]);
    let encoded = bs58::encode(kp.to_bytes()).into_string();
    let imported = import_key(Some(&encoded), None).unwrap();
    assert_eq!(imported.to_bytes(), kp.to_bytes());
    let secret = bs58::encode(&kp.to_bytes()[..32]).into_string();
    assert_eq!(import_key(Some(&secret), None).unwrap().to_bytes(), kp.to_bytes());
}

#[test]
fn import_key_from_phrase() {
    let imported = import_key(None, Some(ABANDON)).unwrap();
    assert_eq!(imported.to_bytes(), keypair_of_phrase(ABANDON).to_bytes());
}

#[test]
fn import_key_needs_exactly_one_source() {
    assert_eq!(import_key(None, None).err(), Some(KeyError::NoKeySource));
    assert_eq!(import_key(Some("abc"), Some(ABANDON)).err(), Some(KeyError::NoKeySource));
    assert_eq!(
        KeyError::NoKeySource.message(),
        "provide either --private-key or --seed-phrase"
    );
}

#[test]
fn import_key_rejects_bad_base58() {
    let err = import_key(Some("0OIl"), None).err().unwrap();
    assert_eq!(err, KeyError::InvalidBase58);
    assert_eq!(import_key(Some("3mJr7AoUXx2Wqd"), None).err(), Some(KeyError::WrongLength { len: 10 }));
}
