//! Jito bundle tip accounts.

use vstd::prelude::*;
use crate::pubkey::Pubkey;
use vstd::string::StringExecFns;

verus! {

/// The eight Jito tip accounts.
pub const TIP_ACCOUNTS: [[u8; 32]; 8] = [
    // 96gYZGLnJYVFmbjzopPSU6QiEV5fGqZNyN9nmNhvrZU5
    [120, 82, 28, 177, 121, 206, 187, 133, 137, 181, 86, 162, 213, 236, 148, 210, 73, 134, 130, 253, 249, 187, 42, 245, 173, 100, 228, 145, 204, 65, 83, 218],
    // HFqU5x63VTqvQss8hp11i4bPuMJrCPQYjh3HJsmLeBp7
    [241, 135, 236, 135, 209, 247, 69, 203, 58, 3, 56, 74, 38, 166, 158, 217, 105, 228, 130, 67, 82, 232, 132, 154, 132, 205, 57, 157, 164, 161, 20, 140],
    // Cw8CFyM9FkoMi7K7Crf6HNQqf4uEMzpKw6QNghXLvLkY
    [177, 78, 13, 229, 94, 159, 186, 134, 57, 110, 191, 213, 72, 207, 248, 201, 32, 17, 234, 199, 183, 91, 170, 155, 45, 156, 106, 134, 245, 161, 113, 65],
    // ADaUMid9yfUytqMBgopwjb2DTLSZuaZjaRkJ1h2wTpkW
    [136, 241, 255, 163, 162, 223, 230, 23, 189, 196, 227, 87, 50, 81, 163, 34, 227, 252, 174, 127, 8, 23, 166, 152, 157, 24, 30, 125, 61, 25, 35, 135],
    // DfXygSm4jCyNCybVYYK6DwvWqjKee8pbDmJGcLWNDXjh
    [188, 43, 87, 6, 94, 241, 221, 102, 84, 48, 190, 96, 107, 166, 89, 108, 2, 149, 48, 27, 173, 239, 139, 90, 252, 65, 1, 65, 80, 244, 18, 116],
    // ADuUkR4vqLUMWXxW9gh6D6L8pMSawimctcNZ5pGwDcEt
    [137, 7, 125, 85, 165, 187, 19, 48, 118, 62, 183, 103, 245, 94, 192, 119, 180, 26, 13, 7, 95, 125, 225, 215, 63, 186, 202, 60, 99, 213, 84, 113],
    // DttWaMuVvTiduZRnguLF7jNxTgiMBZ1hyAumKUiL2KRL
    [191, 151, 27, 89, 16, 139, 91, 133, 160, 79, 176, 147, 241, 226, 27, 78, 63, 212, 196, 200, 244, 135, 221, 9, 185, 87, 82, 118, 159, 13, 216, 195],
    // 3AVi9Tg9Uo68tJfuvoKvqKNWKkC5wPdSSdeBnizKZ6jT
    [32, 38, 16, 30, 194, 3, 40, 150, 74, 50, 171, 171, 19, 108, 84, 5, 185, 31, 58, 227, 142, 228, 246, 76, 182, 189, 232, 121, 184, 104, 56, 210],
];

/// The tip account for `payer`: chosen by the first byte of its address,
/// modulo the number of tip accounts.
pub open spec fn tip_account_of(payer: Seq<u8>) -> Seq<u8> {
    TIP_ACCOUNTS@[payer[0] as int % 8]@
}

/// The tip account for `payer`, chosen by the first byte of its address.
pub fn select_tip_account(payer: &Pubkey) -> (k: Pubkey)
    ensures
        k@ == tip_account_of(payer@),
{
    let i = (payer.0[0] as usize) % 8;
    Pubkey(TIP_ACCOUNTS[i])
}

/// Every tip account is reachable: the payer whose address starts with byte
/// `i` (and any bytes after it) tips account `i`.
pub proof fn law_every_tip_account_reachable(i: int, payer: Seq<u8>)
    requires
        0 <= i < 8,
        payer.len() == 32,
        payer[0] == i,
    ensures
        tip_account_of(payer) == TIP_ACCOUNTS@[i]@,
{
}

/// The standard base64 alphabet.
pub const BASE64_ALPHABET: [char; 64] = ['A', 'B', 'C', 'D', 'E', 'F', 'G', 'H', 'I', 'J', 'K', 'L', 'M', 'N', 'O', 'P', 'Q', 'R', 'S', 'T', 'U', 'V', 'W', 'X', 'Y', 'Z', 'a', 'b', 'c', 'd', 'e', 'f', 'g', 'h', 'i', 'j', 'k', 'l', 'm', 'n', 'o', 'p', 'q', 'r', 's', 't', 'u', 'v', 'w', 'x', 'y', 'z', '0', '1', '2', '3', '4', '5', '6', '7', '8', '9', '+', '/'];

/// The base64 character of a 6-bit value.
pub open spec fn base64_char(v: int) -> char {
    BASE64_ALPHABET@[v]
}

/// The standard base64 encoding (with `=` padding) of a byte string: each
/// group of three bytes, read as a 24-bit big-endian number, becomes four
/// characters of six bits each; a last group of one or two bytes is padded
/// with zero bits and `=`.
pub open spec fn base64_standard(bytes: Seq<u8>) -> Seq<char>
    decreases bytes.len(),
{
    if bytes.len() == 0 {
        Seq::empty()
    } else {
        let b1 = if bytes.len() > 1 { bytes[1] as int } else { 0 };
        let b2 = if bytes.len() > 2 { bytes[2] as int } else { 0 };
        let n = bytes[0] as int * 65536 + b1 * 256 + b2;
        let c0 = base64_char(n / 262144);
        let c1 = base64_char((n / 4096) % 64);
        let c2 = if bytes.len() > 1 { base64_char((n / 64) % 64) } else { '=' };
        let c3 = if bytes.len() > 2 { base64_char(n % 64) } else { '=' };
        if bytes.len() <= 3 {
            seq![c0, c1, c2, c3]
        } else {
            seq![c0, c1, c2, c3] + base64_standard(bytes.subrange(3, bytes.len() as int))
        }
    }
}

/// `base64::engine::general_purpose::STANDARD.encode`.
#[verifier::external_body]
fn base64_encode(bytes: &[u8]) -> (s: String)
    ensures
        s@ == base64_standard(bytes@),
{
    <base64::engine::GeneralPurpose as base64::Engine>::encode(
        &base64::engine::general_purpose::STANDARD,
        bytes,
    )
}

/// The form in which a serialized, signed transaction travels in a
/// `sendBundle` request: its standard base64 encoding.
pub fn encode_bundle_transaction(serialized: &[u8]) -> (s: String)
    ensures
        s@ == base64_standard(serialized@),
{
    base64_encode(serialized)
}

/// Why the block engine did not take a bundle.
#[derive(Clone, Debug)]
pub enum JitoError {
    /// "Jito rejected bundle: {error}"
    Rejected { error: String },
    /// "missing bundle ID in Jito response"
    MissingBundleId,
}

impl JitoError {
    /// The error's message.
    pub fn message(&self) -> (s: String)
        ensures
            s@ == (match self {
                JitoError::Rejected { error } => "Jito rejected bundle: "@ + error@,
                JitoError::MissingBundleId => "missing bundle ID in Jito response"@,
            }),
    {
        match self {
            JitoError::Rejected { error } => {
                let mut s = "Jito rejected bundle: ".to_owned();
                s.append(error.as_str());
                s
            },
            JitoError::MissingBundleId => "missing bundle ID in Jito response".to_owned(),
        }
    }
}

/// Reads a `sendBundle` reply from its `error` member (rendered as text,
/// when present) and its `result` member (when it is a string): an error
/// wins; otherwise the result is the bundle id.
pub fn bundle_outcome(error: Option<String>, result: Option<String>) -> (r: Result<String, JitoError>)
    ensures
        match error {
            Some(e) => r matches Err(JitoError::Rejected { error: t }) && t@ == e@,
            None => match result {
                Some(id) => r matches Ok(s) && s@ == id@,
                None => r matches Err(JitoError::MissingBundleId),
            },
        },
{
    match error {
        Some(e) => Err(JitoError::Rejected { error: e }),
        None => match result {
            Some(id) => Ok(id),
            None => Err(JitoError::MissingBundleId),
        },
    }
}

} // verus!
