//! Wallet keypairs: importing a key from raw bytes, a base58 private key or
//! a BIP-39 seed phrase, and generating a new one from fresh entropy.

use vstd::prelude::*;
use crate::pubkey::Pubkey;
use crate::text::{decimal, push_decimal};
use vstd::string::StringExecFns;

verus! {

/// The ed25519 public key derived from a 32-byte secret key.
pub uninterp spec fn ed25519_public(secret: Seq<u8>) -> Seq<u8>;

/// The English BIP-39 mnemonic phrase that encodes `entropy`.
pub uninterp spec fn bip39_phrase(entropy: Seq<u8>) -> Seq<char>;

/// The BIP-39 seed (empty passphrase) of a mnemonic phrase, or `None` when
/// the phrase is not a valid mnemonic.
pub uninterp spec fn bip39_seed(phrase: Seq<char>) -> Option<Seq<u8>>;

/// The Bitcoin base58 alphabet.
pub const BASE58_ALPHABET: [char; 58] = ['1', '2', '3', '4', '5', '6', '7', '8', '9', 'A', 'B', 'C', 'D', 'E', 'F', 'G', 'H', 'J', 'K', 'L', 'M', 'N', 'P', 'Q', 'R', 'S', 'T', 'U', 'V', 'W', 'X', 'Y', 'Z', 'a', 'b', 'c', 'd', 'e', 'f', 'g', 'h', 'i', 'j', 'k', 'm', 'n', 'o', 'p', 'q', 'r', 's', 't', 'u', 'v', 'w', 'x', 'y', 'z'];

/// The value of a base58 digit, when `c` is one.
pub open spec fn base58_digit(c: char) -> Option<nat> {
    if exists|i: int| 0 <= i < 58 && BASE58_ALPHABET@[i] == c {
        Some((choose|i: int| 0 <= i < 58 && BASE58_ALPHABET@[i] == c) as nat)
    } else {
        None
    }
}

/// The number that base58 digits spell (most significant first), when
/// every character is a digit.
pub open spec fn base58_value(s: Seq<char>) -> Option<nat>
    decreases s.len(),
{
    if s.len() == 0 {
        Some(0)
    } else {
        match (base58_value(s.drop_last()), base58_digit(s.last())) {
            (Some(v), Some(d)) => Some(v * 58 + d),
            _ => None,
        }
    }
}

/// The big-endian bytes of `n` without leading zero bytes (none for 0).
pub open spec fn be_bytes(n: nat) -> Seq<u8>
    decreases n,
{
    if n == 0 {
        Seq::empty()
    } else {
        be_bytes(n / 256).push((n % 256) as u8)
    }
}

/// How many `'1'` characters (the digit zero) `s` starts with.
pub open spec fn leading_ones(s: Seq<char>) -> nat
    decreases s.len(),
{
    if s.len() > 0 && s[0] == '1' {
        1 + leading_ones(s.drop_first())
    } else {
        0
    }
}

/// The bytes a base58 string decodes to: one zero byte for each leading
/// `'1'`, then the big-endian bytes of the number the rest spells; `None`
/// when a character is not a base58 digit.
pub open spec fn base58_decoded(text: Seq<char>) -> Option<Seq<u8>> {
    let z = leading_ones(text);
    match base58_value(text.subrange(z as int, text.len() as int)) {
        Some(v) => Some(Seq::new(z, |i: int| 0u8) + be_bytes(v)),
        None => None,
    }
}

/// Whether 64 bytes are a secret key followed by its own public key.
pub open spec fn keypair_valid(bytes: Seq<u8>) -> bool {
    &&& bytes.len() == 64
    &&& bytes.subrange(32, 64) == ed25519_public(bytes.subrange(0, 32))
}

/// The keypair whose secret key is the first 32 bytes of `seed`.
pub open spec fn keypair_of_seed(seed: Seq<u8>) -> Seq<u8> {
    seed.subrange(0, 32) + ed25519_public(seed.subrange(0, 32))
}

/// An ed25519 keypair: 32 secret bytes followed by the 32-byte public key
/// derived from them.
pub struct Keypair {
    bytes: [u8; 64],
}

impl View for Keypair {
    type V = Seq<u8>;

    closed spec fn view(&self) -> Seq<u8> {
        self.bytes@
    }
}

impl Keypair {
    /// The public key (the wallet's address).
    pub fn pubkey(&self) -> (k: Pubkey)
        ensures
            k@ == self@.subrange(32, 64),
    {
        let mut out = [0u8; 32];
        let mut i: usize = 0;
        while i < 32
            invariant
                i <= 32,
                self@ == self.bytes@,
                self@.len() == 64,
                forall|j: int| 0 <= j < i ==> out@[j] == self@[32 + j],
            decreases 32 - i,
        {
            out[i] = self.bytes[32 + i];
            i = i + 1;
        }
        assert(out@ =~= self@.subrange(32, 64));
        Pubkey(out)
    }

    /// The 64 bytes of the keypair, as they are stored in a key file.
    pub fn to_bytes(&self) -> (b: [u8; 64])
        ensures
            b@ == self@,
    {
        self.bytes
    }
}

/// `Keypair::from_seed` (`SeedDerivable`, solana-keypair): the keypair whose
/// secret key is the first 32 bytes of `seed`; refused when `seed` is
/// shorter than 32 bytes.
#[verifier::external_body]
fn keypair_from_seed(seed: &[u8]) -> (r: Option<Keypair>)
    ensures
        r is Some <==> seed@.len() >= 32,
        r matches Some(k) ==> k@ == seed@.subrange(0, 32) + ed25519_public(seed@.subrange(0, 32))
            && k@.len() == 64,
{
    match <solana_sdk::signature::Keypair as solana_sdk::signer::SeedDerivable>::from_seed(seed) {
        Ok(kp) => Some(Keypair { bytes: kp.to_bytes() }),
        Err(_) => None,
    }
}

/// `Keypair::try_from(&[u8])` (solana-keypair): accepts exactly 64 bytes
/// whose last 32 are the public key derived from the first 32.
#[verifier::external_body]
fn keypair_try_from_bytes(data: &[u8]) -> (r: Option<Keypair>)
    ensures
        r is Some <==> (data@.len() == 64 && data@.subrange(32, 64) == ed25519_public(
            data@.subrange(0, 32),
        )),
        r matches Some(k) ==> k@ == data@,
{
    match solana_sdk::signature::Keypair::try_from(data) {
        Ok(kp) => Some(Keypair { bytes: kp.to_bytes() }),
        Err(_) => None,
    }
}

/// `bip39::Mnemonic::from_entropy` followed by its `Display`: the English
/// mnemonic phrase of 16 bytes of entropy. The crate refuses only entropy
/// whose bit length is not a multiple of 32 between 128 and 256, so 16 bytes
/// are always accepted; a phrase produced this way parses back as a
/// mnemonic.
#[verifier::external_body]
fn mnemonic_from_entropy(entropy: &[u8; 16]) -> (r: Option<String>)
    ensures
        r is Some,
        r matches Some(p) ==> p@ == bip39_phrase(entropy@),
        r matches Some(p) ==> bip39_seed(p@) is Some,
{
    match bip39::Mnemonic::from_entropy(entropy) {
        Ok(m) => Some(m.to_string()),
        Err(_) => None,
    }
}

/// `bip39::Mnemonic::parse` followed by `Mnemonic::to_seed("")`: the
/// 64-byte seed of a mnemonic phrase, or `None` when it does not parse.
#[verifier::external_body]
fn seed_from_mnemonic(phrase: &str) -> (r: Option<[u8; 64]>)
    ensures
        r is Some <==> bip39_seed(phrase@) is Some,
        r matches Some(s) ==> bip39_seed(phrase@) == Some(s@),
{
    match bip39::Mnemonic::parse(phrase) {
        Ok(m) => Some(m.to_seed("")),
        Err(_) => None,
    }
}

/// `bs58::decode(..).into_vec()`: the bytes a base58 string stands for.
#[verifier::external_body]
fn base58_decode(text: &str) -> (r: Option<Vec<u8>>)
    ensures
        r is Some <==> base58_decoded(text@) is Some,
        r matches Some(v) ==> base58_decoded(text@) == Some(v@),
{
    bs58::decode(text).into_vec().ok()
}

/// `rand::random`: 16 bytes from the thread-local random generator. Nothing
/// is stated of them.
#[verifier::external_body]
fn random_entropy() -> (e: [u8; 16]) {
    rand::random()
}

/// Why a key could not be imported or read.
#[derive(Clone, Copy, PartialEq, Eq, Debug, Structural)]
pub enum KeyError {
    /// "expected 32 or 64 bytes, got {len}"
    WrongLength { len: usize },
    /// "invalid 64-byte keypair"
    InvalidKeypair,
    /// "invalid mnemonic phrase"
    InvalidMnemonic,
    /// "invalid base58 private key"
    InvalidBase58,
    /// "provide either --private-key or --seed-phrase"
    NoKeySource,
    /// "corrupted key file"
    CorruptedKeyFile,
}

/// The message of a key error.
pub open spec fn key_error_text(e: KeyError) -> Seq<char> {
    match e {
        KeyError::WrongLength { len } => "expected 32 or 64 bytes, got "@ + decimal(len as nat),
        KeyError::InvalidKeypair => "invalid 64-byte keypair"@,
        KeyError::InvalidMnemonic => "invalid mnemonic phrase"@,
        KeyError::InvalidBase58 => "invalid base58 private key"@,
        KeyError::NoKeySource => "provide either --private-key or --seed-phrase"@,
        KeyError::CorruptedKeyFile => "corrupted key file"@,
    }
}

impl KeyError {
    /// The error's message.
    pub fn message(&self) -> (s: String)
        ensures
            s@ == key_error_text(*self),
    {
        match self {
            KeyError::WrongLength { len } => {
                let mut s = "expected 32 or 64 bytes, got ".to_owned();
                push_decimal(&mut s, *len as u64);
                s
            },
            KeyError::InvalidKeypair => "invalid 64-byte keypair".to_owned(),
            KeyError::InvalidMnemonic => "invalid mnemonic phrase".to_owned(),
            KeyError::InvalidBase58 => "invalid base58 private key".to_owned(),
            KeyError::NoKeySource => "provide either --private-key or --seed-phrase".to_owned(),
            KeyError::CorruptedKeyFile => "corrupted key file".to_owned(),
        }
    }
}

/// The keypair imported from raw bytes: 64 bytes are a whole keypair,
/// 32 bytes a secret key whose public key is derived.
pub open spec fn imported_from_bytes(data: Seq<u8>) -> Result<Seq<u8>, KeyError> {
    if data.len() == 64 {
        if keypair_valid(data) {
            Ok(data)
        } else {
            Err(KeyError::InvalidKeypair)
        }
    } else if data.len() == 32 {
        Ok(keypair_of_seed(data))
    } else {
        Err(KeyError::WrongLength { len: data.len() as usize })
    }
}

/// The keypair imported from a BIP-39 phrase: its secret key is the first
/// 32 bytes of the phrase's seed.
pub open spec fn imported_from_phrase(phrase: Seq<char>) -> Result<Seq<u8>, KeyError> {
    match bip39_seed(phrase) {
        Some(seed) => Ok(keypair_of_seed(seed)),
        None => Err(KeyError::InvalidMnemonic),
    }
}

/// Whether a call's outcome is the expected keypair bytes or error.
pub open spec fn keypair_outcome(r: Result<Keypair, KeyError>, expected: Result<Seq<u8>, KeyError>) -> bool {
    match r {
        Ok(k) => expected == Ok::<Seq<u8>, KeyError>(k@),
        Err(e) => expected == Err::<Seq<u8>, KeyError>(e),
    }
}

/// Imports a keypair from 64 keypair bytes or a 32-byte secret key.
pub fn import_from_bytes(data: &[u8]) -> (r: Result<Keypair, KeyError>)
    ensures
        keypair_outcome(r, imported_from_bytes(data@)),
        r matches Ok(k) ==> keypair_valid(k@),
{
    let n = data.len();
    if n == 64 {
        match keypair_try_from_bytes(data) {
            Some(k) => Ok(k),
            None => Err(KeyError::InvalidKeypair),
        }
    } else if n == 32 {
        match keypair_from_seed(data) {
            Some(k) => {
                proof {
                    assert(k@.subrange(0, 32) =~= data@.subrange(0, 32));
                    assert(k@.subrange(32, 64) =~= ed25519_public(data@.subrange(0, 32)));
                }
                Ok(k)
            },
            None => Err(KeyError::WrongLength { len: n }),
        }
    } else {
        Err(KeyError::WrongLength { len: n })
    }
}

/// Derives the keypair of a BIP-39 seed phrase: its secret key is the first
/// 32 bytes of the phrase's seed (empty passphrase).
pub fn import_from_seed_phrase(phrase: &str) -> (r: Result<Keypair, KeyError>)
    ensures
        keypair_outcome(r, imported_from_phrase(phrase@)),
        r matches Ok(k) ==> keypair_valid(k@),
{
    match seed_from_mnemonic(phrase) {
        None => Err(KeyError::InvalidMnemonic),
        Some(seed) => {
            let secret: &[u8] = &seed;
            match keypair_from_seed(secret) {
                Some(k) => {
                    proof {
                        assert(k@.subrange(0, 32) =~= seed@.subrange(0, 32));
                        assert(k@.subrange(32, 64) =~= ed25519_public(seed@.subrange(0, 32)));
                    }
                    Ok(k)
                },
                None => Err(KeyError::InvalidMnemonic),
            }
        },
    }
}

/// Reads a keypair back from the bytes of a key file.
pub fn keypair_from_stored_bytes(bytes: &[u8]) -> (r: Result<Keypair, KeyError>)
    ensures
        r is Ok <==> keypair_valid(bytes@),
        r matches Ok(k) ==> k@ == bytes@,
        r matches Err(e) ==> e == KeyError::CorruptedKeyFile,
{
    match keypair_try_from_bytes(bytes) {
        Some(k) => Ok(k),
        None => Err(KeyError::CorruptedKeyFile),
    }
}

/// The keypair of the mnemonic that encodes 16 bytes of entropy, with the
/// mnemonic phrase.
pub fn keypair_from_entropy(entropy: [u8; 16]) -> (r: (String, Keypair))
    ensures
        r.0@ == bip39_phrase(entropy@),
        imported_from_phrase(r.0@) == Ok::<Seq<u8>, KeyError>(r.1@),
        keypair_valid(r.1@),
{
    let phrase = match mnemonic_from_entropy(&entropy) {
        Some(p) => p,
        None => {
            proof {
                assert(false);
            }
            String::new()
        },
    };
    match import_from_seed_phrase(phrase.as_str()) {
        Ok(k) => (phrase, k),
        Err(e) => {
            proof {
                assert(false);
            }
            (phrase, Keypair { bytes: [0u8; 64] })
        },
    }
}

/// Generates a new keypair from fresh random entropy, with its mnemonic
/// phrase. Which entropy is drawn is not stated; the keypair is the one of
/// the returned phrase.
pub fn generate_keypair() -> (r: (String, Keypair))
    ensures
        imported_from_phrase(r.0@) == Ok::<Seq<u8>, KeyError>(r.1@),
        keypair_valid(r.1@),
        exists|e: Seq<u8>| e.len() == 16 && r.0@ == bip39_phrase(e),
{
    let entropy = random_entropy();
    let r = keypair_from_entropy(entropy);
    assert(entropy@.len() == 16);
    r
}

/// Imports a keypair from exactly one source: a base58 private key (64 or
/// 32 bytes once decoded) or a BIP-39 seed phrase.
pub fn import_key(private_key: Option<&str>, seed_phrase: Option<&str>) -> (r: Result<Keypair, KeyError>)
    ensures
        match (private_key, seed_phrase) {
            (Some(pk), None) => match base58_decoded(pk@) {
                Some(bytes) => keypair_outcome(r, imported_from_bytes(bytes)),
                None => r == Err::<Keypair, KeyError>(KeyError::InvalidBase58),
            },
            (None, Some(phrase)) => keypair_outcome(r, imported_from_phrase(phrase@)),
            _ => r == Err::<Keypair, KeyError>(KeyError::NoKeySource),
        },
{
    match (private_key, seed_phrase) {
        (Some(pk), None) => match base58_decode(pk) {
            Some(bytes) => import_from_bytes(bytes.as_slice()),
            None => Err(KeyError::InvalidBase58),
        },
        (None, Some(phrase)) => import_from_seed_phrase(phrase),
        _ => Err(KeyError::NoKeySource),
    }
}

/// A keypair's stored bytes read back give the same keypair: importing its
/// 64 bytes returns them unchanged.
pub proof fn law_keypair_bytes_read_back(bytes: Seq<u8>)
    requires
        keypair_valid(bytes),
    ensures
        imported_from_bytes(bytes) == Ok::<Seq<u8>, KeyError>(bytes),
{
}

/// Importing the 32-byte secret key of a keypair gives the same keypair as
/// importing all 64 of its bytes.
pub proof fn law_secret_import_matches_full_import(bytes: Seq<u8>)
    requires
        keypair_valid(bytes),
    ensures
        imported_from_bytes(bytes.subrange(0, 32)) == imported_from_bytes(bytes),
{
    let secret = bytes.subrange(0, 32);
    assert(secret.subrange(0, 32) =~= secret);
    assert(keypair_of_seed(secret) =~= bytes);
}

} // verus!
