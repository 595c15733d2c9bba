//! Pump Global (741 bytes) and PumpSwap GlobalConfig (643 bytes) accounts:
//! their fee-recipient arrays and the round-robin choice among them.
//!
//! On layout drift, parsing fails and callers fall back to the default
//! recipients.

use vstd::prelude::*;
use crate::bytes::{starts_with, u64_le};
use crate::constants::{FEE_RECIPIENT, PROTOCOL_FEE_RECIPIENT};
use crate::pubkey::{Pubkey, zero_key};
use crate::text::{byte_list, decimal, push_byte_list, push_decimal};
use vstd::string::StringExecFns;

verus! {

/// Why a global account was not parsed.
#[derive(Clone, Copy, PartialEq, Eq, Debug)]
pub enum GlobalParseError {
    /// "cannot read Pump Global account"
    PumpGlobalUnreadable,
    /// "Pump Global layout drift: got {len} bytes, expected {expected_len}"
    PumpLayoutDrift { len: usize, expected_len: usize },
    /// "Pump Global discriminator mismatch: got {got:?}, expected {expected:?}"
    PumpDiscriminatorMismatch { got: [u8; 8], expected: [u8; 8] },
    /// "cannot read PumpSwap GlobalConfig account"
    SwapConfigUnreadable,
    /// "PumpSwap GlobalConfig layout drift: got {len} bytes, expected {expected_len}"
    SwapLayoutDrift { len: usize, expected_len: usize },
    /// "PumpSwap GlobalConfig discriminator mismatch: got {got:?}, expected {expected:?}"
    SwapDiscriminatorMismatch { got: [u8; 8], expected: [u8; 8] },
}

/// The message of a global-account error.
pub open spec fn global_error_text(e: GlobalParseError) -> Seq<char> {
    match e {
        GlobalParseError::PumpGlobalUnreadable => "cannot read Pump Global account"@,
        GlobalParseError::PumpLayoutDrift { len, expected_len } => "Pump Global layout drift: got "@
            + decimal(len as nat) + " bytes, expected "@ + decimal(expected_len as nat),
        GlobalParseError::PumpDiscriminatorMismatch { got, expected } =>
            "Pump Global discriminator mismatch: got "@ + byte_list(got@) + ", expected "@
            + byte_list(expected@),
        GlobalParseError::SwapConfigUnreadable => "cannot read PumpSwap GlobalConfig account"@,
        GlobalParseError::SwapLayoutDrift { len, expected_len } =>
            "PumpSwap GlobalConfig layout drift: got "@ + decimal(len as nat) + " bytes, expected "@
            + decimal(expected_len as nat),
        GlobalParseError::SwapDiscriminatorMismatch { got, expected } =>
            "PumpSwap GlobalConfig discriminator mismatch: got "@ + byte_list(got@) + ", expected "@
            + byte_list(expected@),
    }
}

impl GlobalParseError {
    /// The error's message.
    pub fn message(&self) -> (s: String)
        ensures
            s@ == global_error_text(*self),
    {
        match self {
            GlobalParseError::PumpGlobalUnreadable => "cannot read Pump Global account".to_owned(),
            GlobalParseError::PumpLayoutDrift { len, expected_len } => {
                let mut s = "Pump Global layout drift: got ".to_owned();
                push_decimal(&mut s, *len as u64);
                s.append(" bytes, expected ");
                push_decimal(&mut s, *expected_len as u64);
                s
            },
            GlobalParseError::PumpDiscriminatorMismatch { got, expected } => {
                let mut s = "Pump Global discriminator mismatch: got ".to_owned();
                push_byte_list(&mut s, got);
                s.append(", expected ");
                push_byte_list(&mut s, expected);
                s
            },
            GlobalParseError::SwapConfigUnreadable => "cannot read PumpSwap GlobalConfig account".to_owned(),
            GlobalParseError::SwapLayoutDrift { len, expected_len } => {
                let mut s = "PumpSwap GlobalConfig layout drift: got ".to_owned();
                push_decimal(&mut s, *len as u64);
                s.append(" bytes, expected ");
                push_decimal(&mut s, *expected_len as u64);
                s
            },
            GlobalParseError::SwapDiscriminatorMismatch { got, expected } => {
                let mut s = "PumpSwap GlobalConfig discriminator mismatch: got ".to_owned();
                push_byte_list(&mut s, got);
                s.append(", expected ");
                push_byte_list(&mut s, expected);
                s
            },
        }
    }
}

/// Anchor account discriminator of the Pump Global account.
pub const GLOBAL_DISC: [u8; 8] = [167, 232, 232, 177, 200, 108, 114, 127];

/// Anchor account discriminator of the PumpSwap GlobalConfig account.
pub const SWAP_DISC: [u8; 8] = [149, 8, 156, 202, 160, 252, 176, 217];

/// Size of the Pump Global account.
pub const PUMP_GLOBAL_EXPECTED_LEN: usize = 741;

/// Size of the PumpSwap GlobalConfig account.
pub const SWAP_GLOBAL_CONFIG_EXPECTED_LEN: usize = 643;

/// Offset of `fee_recipient` in the Pump Global account.
pub const PUMP_FEE_RECIPIENT_OFFSET: usize = 41;

/// Offset of `fee_recipients` (7 addresses) in the Pump Global account.
pub const PUMP_FEE_RECIPIENTS_OFFSET: usize = 162;

/// Offset of `protocol_fee_recipients` (8 addresses) in the GlobalConfig account.
pub const SWAP_FEE_RECIPIENTS_OFFSET: usize = 57;

/// The address stored at `offset` in `data`.
pub open spec fn key_at(data: Seq<u8>, offset: int) -> Seq<u8> {
    data.subrange(offset, offset + 32)
}

/// The recipients that are set: those that are not the all-zero address,
/// in their order.
pub open spec fn active(recipients: Seq<Pubkey>) -> Seq<Pubkey>
    decreases recipients.len(),
{
    if recipients.len() == 0 {
        Seq::empty()
    } else {
        let rest = active(recipients.drop_last());
        if recipients.last()@ != zero_key() {
            rest.push(recipients.last())
        } else {
            rest
        }
    }
}

/// The recipient chosen for `index`: the active recipient at position
/// `index mod (number of active recipients)`, or `fallback` when none is set.
pub open spec fn selected(recipients: Seq<Pubkey>, index: u64, fallback: Pubkey) -> Pubkey {
    let a = active(recipients);
    if a.len() == 0 {
        fallback
    } else {
        a[(index as usize) as int % a.len() as int]
    }
}

/// Every active recipient is one of the recipients and is set.
pub proof fn lemma_active_members(recipients: Seq<Pubkey>)
    ensures
        active(recipients).len() <= recipients.len(),
        forall|i: int|
            0 <= i < active(recipients).len() ==> recipients.contains(#[trigger] active(recipients)[i])
                && active(recipients)[i]@ != zero_key(),
    decreases recipients.len(),
{
    if recipients.len() > 0 {
        let rest = recipients.drop_last();
        lemma_active_members(rest);
        assert forall|i: int|
            0 <= i < active(recipients).len() implies recipients.contains(
            #[trigger] active(recipients)[i],
        ) && active(recipients)[i]@ != zero_key() by {
            if i < active(rest).len() {
                let j = choose|j: int| 0 <= j < rest.len() && rest[j] == active(rest)[i];
                assert(recipients[j] == rest[j]);
            } else {
                assert(recipients[recipients.len() - 1] == recipients.last());
            }
        }
    }
}

/// The choice is one of the set recipients, or the fallback exactly when
/// none is set.
pub proof fn law_selected_is_active_or_fallback(recipients: Seq<Pubkey>, index: u64, fallback: Pubkey)
    ensures
        active(recipients).len() == 0 ==> selected(recipients, index, fallback) == fallback,
        active(recipients).len() > 0 ==> recipients.contains(selected(recipients, index, fallback))
            && selected(recipients, index, fallback)@ != zero_key(),
{
    lemma_active_members(recipients);
    let a = active(recipients);
    if a.len() > 0 {
        let k = (index as usize) as int % a.len() as int;
        assert(0 <= k < a.len());
        assert(selected(recipients, index, fallback) == a[k]);
    }
}

/// Round robin: indices that differ by the number of set recipients choose
/// the same recipient.
pub proof fn law_selection_wraps(recipients: Seq<Pubkey>, index: u64, fallback: Pubkey)
    requires
        index as int + active(recipients).len() <= u64::MAX,
        index as int + active(recipients).len() <= usize::MAX,
    ensures
        selected(recipients, index, fallback) == selected(
            recipients,
            (index + active(recipients).len()) as u64,
            fallback,
        ),
{
    let n = active(recipients).len() as int;
    if n > 0 {
        let j = (index + active(recipients).len()) as u64;
        assert((j as usize) as int == (index as usize) as int + n);
        vstd::arithmetic::div_mod::lemma_mod_add_multiples_vanish((index as usize) as int, n);
    }
}

/// The first indices go through the set recipients in their order.
pub proof fn law_selection_in_order(recipients: Seq<Pubkey>, index: u64, fallback: Pubkey)
    requires
        recipients.len() <= usize::MAX,
        (index as int) < active(recipients).len(),
    ensures
        selected(recipients, index, fallback) == active(recipients)[index as int],
{
    lemma_active_members(recipients);
    assert((index as usize) as int == index as int);
    vstd::arithmetic::div_mod::lemma_small_mod(index as nat, active(recipients).len());
}

fn select_from(recipients: &[Pubkey], index: u64, fallback: Pubkey) -> (r: Pubkey)
    ensures
        r == selected(recipients@, index, fallback),
{
    let n = recipients.len();
    let mut act: Vec<Pubkey> = Vec::new();
    let mut i: usize = 0;
    while i < n
        invariant
            n == recipients@.len(),
            i <= n,
            act@ == active(recipients@.subrange(0, i as int)),
        decreases n - i,
    {
        let p = recipients[i];
        proof {
            let s = recipients@.subrange(0, i + 1);
            assert(s.drop_last() =~= recipients@.subrange(0, i as int));
            assert(s.last() == p);
        }
        if !p.is_default() {
            act.push(p);
        }
        i = i + 1;
    }
    assert(recipients@.subrange(0, n as int) =~= recipients@);
    if act.len() == 0 {
        return fallback;
    }
    let k = (index as usize) % act.len();
    act[k]
}

/// The FNV-1a offset basis.
pub const FNV_OFFSET_BASIS: u64 = 0xcbf29ce484222325;

/// The FNV-1a prime.
pub const FNV_PRIME: u64 = 0x100000001b3;

/// FNV-1a (64-bit) over `bytes`, starting from `h`.
pub open spec fn fnv1a(h: u64, bytes: Seq<u8>) -> u64
    decreases bytes.len(),
{
    if bytes.len() == 0 {
        h
    } else {
        (fnv1a(h, bytes.drop_last()) ^ (bytes.last() as u64)).wrapping_mul(FNV_PRIME)
    }
}

/// The selection index of a slot and some entropy: FNV-1a over the
/// little-endian slot followed by the entropy.
pub open spec fn deterministic_index_of(slot: u64, entropy: Seq<u8>) -> u64 {
    fnv1a(FNV_OFFSET_BASIS, u64_le(slot) + entropy)
}

fn fnv1a_extend(h: u64, bytes: &[u8], Ghost(prefix): Ghost<Seq<u8>>) -> (r: u64)
    requires
        h == fnv1a(FNV_OFFSET_BASIS, prefix),
    ensures
        r == fnv1a(FNV_OFFSET_BASIS, prefix + bytes@),
{
    let n = bytes.len();
    let mut acc = h;
    let mut i: usize = 0;
    while i < n
        invariant
            n == bytes@.len(),
            i <= n,
            acc == fnv1a(FNV_OFFSET_BASIS, prefix + bytes@.subrange(0, i as int)),
        decreases n - i,
    {
        proof {
            let s = prefix + bytes@.subrange(0, i + 1);
            assert(s.drop_last() =~= prefix + bytes@.subrange(0, i as int));
            assert(s.last() == bytes@[i as int]);
        }
        acc = (acc ^ (bytes[i] as u64)).wrapping_mul(FNV_PRIME);
        i = i + 1;
    }
    assert(bytes@.subrange(0, n as int) =~= bytes@);
    acc
}

fn deterministic_index(slot: u64, entropy: &[u8]) -> (r: u64)
    ensures
        r == deterministic_index_of(slot, entropy@),
{
    let mut slot_bytes: Vec<u8> = Vec::new();
    crate::bytes::push_u64_le(&mut slot_bytes, slot);
    assert(slot_bytes@ =~= u64_le(slot));
    assert(Seq::<u8>::empty() + slot_bytes@ =~= slot_bytes@);
    let h = fnv1a_extend(FNV_OFFSET_BASIS, slot_bytes.as_slice(), Ghost(Seq::empty()));
    fnv1a_extend(h, entropy, Ghost(u64_le(slot)))
}

/// The selection index of `slot` and `entropy` (FNV-1a, 64-bit).
pub fn compute_deterministic_index(slot: u64, entropy: &[u8]) -> (r: u64)
    ensures
        r == deterministic_index_of(slot, entropy@),
{
    deterministic_index(slot, entropy)
}

/// The selection index from the current slot and latest blockhash, each
/// replaced by nothing (slot 0, empty entropy) when it could not be read.
pub fn selection_index(slot: Option<u64>, blockhash: Option<[u8; 32]>) -> (r: u64)
    ensures
        r == deterministic_index_of(
            match slot {
                Some(s) => s,
                None => 0,
            },
            match blockhash {
                Some(h) => h@,
                None => Seq::empty(),
            },
        ),
{
    let s = match slot {
        Some(s) => s,
        None => 0,
    };
    match blockhash {
        Some(h) => {
            let e: &[u8] = &h;
            deterministic_index(s, e)
        },
        None => {
            let e: Vec<u8> = Vec::new();
            deterministic_index(s, e.as_slice())
        },
    }
}

/// Size of the Pump Global account.
pub fn expected_pump_global_len() -> (n: usize)
    ensures
        n == PUMP_GLOBAL_EXPECTED_LEN,
{
    PUMP_GLOBAL_EXPECTED_LEN
}

/// Size of the PumpSwap GlobalConfig account.
pub fn expected_swap_global_config_len() -> (n: usize)
    ensures
        n == SWAP_GLOBAL_CONFIG_EXPECTED_LEN,
{
    SWAP_GLOBAL_CONFIG_EXPECTED_LEN
}

fn read_pubkey(data: &[u8], offset: usize) -> (k: Pubkey)
    requires
        offset + 32 <= data@.len(),
    ensures
        k@ == key_at(data@, offset as int),
{
    Pubkey::read_at(data, offset)
}

fn read_pubkey_array7(data: &[u8], offset: usize) -> (arr: [Pubkey; 7])
    requires
        offset + 7 * 32 <= data@.len(),
    ensures
        forall|i: int| 0 <= i < 7 ==> (#[trigger] arr@[i])@ == key_at(data@, offset + i * 32),
{
    let len = data.len();
    let mut arr = [Pubkey([0u8; 32]); 7];
    let mut i: usize = 0;
    while i < 7
        invariant
            i <= 7,
            len == data@.len(),
            offset + 7 * 32 <= data@.len(),
            forall|j: int| 0 <= j < i ==> (#[trigger] arr@[j])@ == key_at(data@, offset + j * 32),
        decreases 7 - i,
    {
        arr[i] = read_pubkey(data, offset + i * 32);
        i = i + 1;
    }
    arr
}

fn read_pubkey_array8(data: &[u8], offset: usize) -> (arr: [Pubkey; 8])
    requires
        offset + 8 * 32 <= data@.len(),
    ensures
        forall|i: int| 0 <= i < 8 ==> (#[trigger] arr@[i])@ == key_at(data@, offset + i * 32),
{
    let len = data.len();
    let mut arr = [Pubkey([0u8; 32]); 8];
    let mut i: usize = 0;
    while i < 8
        invariant
            i <= 8,
            len == data@.len(),
            offset + 8 * 32 <= data@.len(),
            forall|j: int| 0 <= j < i ==> (#[trigger] arr@[j])@ == key_at(data@, offset + j * 32),
        decreases 8 - i,
    {
        arr[i] = read_pubkey(data, offset + i * 32);
        i = i + 1;
    }
    arr
}

fn first8(data: &[u8]) -> (d: [u8; 8])
    requires
        data@.len() >= 8,
    ensures
        d@ == data@.subrange(0, 8),
{
    let mut d = [0u8; 8];
    let mut i: usize = 0;
    while i < 8
        invariant
            i <= 8,
            data@.len() >= 8,
            forall|j: int| 0 <= j < i ==> d@[j] == data@[j],
        decreases 8 - i,
    {
        d[i] = data[i];
        i = i + 1;
    }
    assert(d@ =~= data@.subrange(0, 8));
    d
}

/// Fee recipients of the Pump Global account.
pub struct PumpGlobal {
    /// At offset 41.
    pub fee_recipient: Pubkey,
    /// At offset 162.
    pub fee_recipients: [Pubkey; 7],
}

/// Whether `data` holds a Pump Global account of the expected layout.
pub open spec fn pump_global_valid(data: Seq<u8>) -> bool {
    data.len() == PUMP_GLOBAL_EXPECTED_LEN && data.subrange(0, 8) == GLOBAL_DISC@
}

/// Whether `e` is the error of parsing `data` as a Pump Global account:
/// layout drift when the size is wrong, else a discriminator mismatch that
/// reports the first eight bytes.
pub open spec fn pump_global_error(e: GlobalParseError, data: Seq<u8>) -> bool {
    if data.len() != PUMP_GLOBAL_EXPECTED_LEN {
        e == GlobalParseError::PumpLayoutDrift { len: data.len() as usize, expected_len: PUMP_GLOBAL_EXPECTED_LEN }
    } else {
        e matches GlobalParseError::PumpDiscriminatorMismatch { got, expected } && got@ == data.subrange(0, 8)
            && expected == GLOBAL_DISC
    }
}

/// Whether `primary` and `arr` are the fee recipients stored in `data`.
pub open spec fn pump_recipients_in(primary: Pubkey, arr: [Pubkey; 7], data: Seq<u8>) -> bool {
    &&& primary@ == key_at(data, PUMP_FEE_RECIPIENT_OFFSET as int)
    &&& forall|i: int| 0 <= i < 7 ==> (#[trigger] arr@[i])@ == key_at(data, PUMP_FEE_RECIPIENTS_OFFSET + i * 32)
}

/// The primary recipient followed by the seven others.
pub open spec fn primary_then(primary: Pubkey, arr: [Pubkey; 7]) -> Seq<Pubkey> {
    seq![primary] + arr@
}

impl PumpGlobal {
    /// The primary recipient followed by the seven others.
    pub fn all_recipients(&self) -> (v: Vec<Pubkey>)
        ensures
            v@ == primary_then(self.fee_recipient, self.fee_recipients),
    {
        let mut v: Vec<Pubkey> = Vec::new();
        v.push(self.fee_recipient);
        let mut i: usize = 0;
        while i < 7
            invariant
                i <= 7,
                v@ == seq![self.fee_recipient] + self.fee_recipients@.subrange(0, i as int),
            decreases 7 - i,
        {
            v.push(self.fee_recipients[i]);
            i = i + 1;
            assert(v@ =~= seq![self.fee_recipient] + self.fee_recipients@.subrange(0, i as int));
        }
        assert(self.fee_recipients@.subrange(0, 7) =~= self.fee_recipients@);
        v
    }

    /// The recipient for `index`; the primary recipient when none is set.
    pub fn select(&self, index: u64) -> (r: Pubkey)
        ensures
            r == selected(primary_then(self.fee_recipient, self.fee_recipients), index, self.fee_recipient),
    {
        let all = self.all_recipients();
        select_from(all.as_slice(), index, self.fee_recipient)
    }
}

/// Parses the Pump Global account: exactly 741 bytes with the Global
/// discriminator.
pub fn parse_pump_global(data: &[u8]) -> (r: Result<PumpGlobal, GlobalParseError>)
    ensures
        pump_global_valid(data@) ==> (r matches Ok(g) && pump_recipients_in(g.fee_recipient, g.fee_recipients, data@)),
        !pump_global_valid(data@) ==> (r matches Err(e) && pump_global_error(e, data@)),
{
    if data.len() != PUMP_GLOBAL_EXPECTED_LEN {
        return Err(GlobalParseError::PumpLayoutDrift { len: data.len(), expected_len: PUMP_GLOBAL_EXPECTED_LEN });
    }
    if !starts_with(data, &GLOBAL_DISC) {
        let got = first8(data);
        return Err(GlobalParseError::PumpDiscriminatorMismatch { got, expected: GLOBAL_DISC });
    }
    Ok(PumpGlobal {
        fee_recipient: read_pubkey(data, PUMP_FEE_RECIPIENT_OFFSET),
        fee_recipients: read_pubkey_array7(data, PUMP_FEE_RECIPIENTS_OFFSET),
    })
}

/// Fee recipients of the Pump Global account.
#[derive(Clone, Copy, Debug)]
pub struct PumpFeeRecipients {
    pub primary: Pubkey,
    pub recipients: [Pubkey; 7],
}

/// Parses the fee recipients of the Pump Global account.
pub fn parse_pump_fee_recipients(data: &[u8]) -> (r: Result<PumpFeeRecipients, GlobalParseError>)
    ensures
        pump_global_valid(data@) ==> (r matches Ok(p) && pump_recipients_in(p.primary, p.recipients, data@)),
        !pump_global_valid(data@) ==> (r matches Err(e) && pump_global_error(e, data@)),
{
    let g = match parse_pump_global(data) {
        Ok(g) => g,
        Err(e) => return Err(e),
    };
    Ok(PumpFeeRecipients { primary: g.fee_recipient, recipients: g.fee_recipients })
}

impl PumpFeeRecipients {
    /// The primary recipient followed by the seven others.
    pub fn all(&self) -> (v: Vec<Pubkey>)
        ensures
            v@ == primary_then(self.primary, self.recipients),
    {
        let g = PumpGlobal { fee_recipient: self.primary, fee_recipients: self.recipients };
        g.all_recipients()
    }

    /// The recipient for `index`; the primary recipient when none is set.
    pub fn select(&self, index: u64) -> (r: Pubkey)
        ensures
            r == selected(primary_then(self.primary, self.recipients), index, self.primary),
    {
        let all = self.all();
        select_from(all.as_slice(), index, self.primary)
    }
}

/// Reads the Pump fee recipients from the Global account data, `None` when
/// the account could not be fetched.
pub fn read_pump_fee_recipients(account_data: Option<&[u8]>) -> (r: Result<PumpFeeRecipients, GlobalParseError>)
    ensures
        account_data is None ==> r == Err::<PumpFeeRecipients, GlobalParseError>(GlobalParseError::PumpGlobalUnreadable),
        account_data matches Some(d) ==> (pump_global_valid(d@) ==> (r matches Ok(p) && pump_recipients_in(p.primary, p.recipients, d@))),
        account_data matches Some(d) ==> (!pump_global_valid(d@) ==> (r matches Err(e) && pump_global_error(e, d@))),
{
    match account_data {
        Some(d) => parse_pump_fee_recipients(d),
        None => Err(GlobalParseError::PumpGlobalUnreadable),
    }
}

/// The Pump fee recipient to use: the one chosen for `index` among the
/// parsed recipients, or the default `FEE_RECIPIENT` when parsing failed.
pub fn select_pump_fee_recipient(parsed: &Result<PumpFeeRecipients, GlobalParseError>, index: u64) -> (r: Pubkey)
    ensures
        parsed matches Ok(p) ==> r == selected(primary_then(p.primary, p.recipients), index, p.primary),
        parsed is Err ==> r@ == FEE_RECIPIENT@,
{
    match parsed {
        Ok(p) => p.select(index),
        Err(_) => Pubkey(FEE_RECIPIENT),
    }
}

/// Fee recipients of the PumpSwap GlobalConfig account.
pub struct SwapGlobalConfig {
    /// At offset 57.
    pub protocol_fee_recipients: [Pubkey; 8],
}

/// Whether `data` holds a PumpSwap GlobalConfig account of the expected layout.
pub open spec fn swap_config_valid(data: Seq<u8>) -> bool {
    data.len() == SWAP_GLOBAL_CONFIG_EXPECTED_LEN && data.subrange(0, 8) == SWAP_DISC@
}

/// Whether `e` is the error of parsing `data` as a GlobalConfig account:
/// layout drift when the size is wrong, else a discriminator mismatch that
/// reports the first eight bytes.
pub open spec fn swap_config_error(e: GlobalParseError, data: Seq<u8>) -> bool {
    if data.len() != SWAP_GLOBAL_CONFIG_EXPECTED_LEN {
        e == GlobalParseError::SwapLayoutDrift { len: data.len() as usize, expected_len: SWAP_GLOBAL_CONFIG_EXPECTED_LEN }
    } else {
        e matches GlobalParseError::SwapDiscriminatorMismatch { got, expected } && got@ == data.subrange(0, 8)
            && expected == SWAP_DISC
    }
}

/// Whether `arr` are the protocol fee recipients stored in `data`.
pub open spec fn swap_recipients_in(arr: [Pubkey; 8], data: Seq<u8>) -> bool {
    forall|i: int| 0 <= i < 8 ==> (#[trigger] arr@[i])@ == key_at(data, SWAP_FEE_RECIPIENTS_OFFSET + i * 32)
}

/// The default protocol fee recipient.
pub open spec fn protocol_fee_fallback() -> Pubkey {
    Pubkey(PROTOCOL_FEE_RECIPIENT)
}

impl SwapGlobalConfig {
    /// The recipient for `index`; the default protocol recipient when none is set.
    pub fn select(&self, index: u64) -> (r: Pubkey)
        ensures
            r == selected(self.protocol_fee_recipients@, index, protocol_fee_fallback()),
    {
        let s: &[Pubkey] = &self.protocol_fee_recipients;
        select_from(s, index, Pubkey(PROTOCOL_FEE_RECIPIENT))
    }
}

/// Parses the PumpSwap GlobalConfig account: exactly 643 bytes with the
/// GlobalConfig discriminator.
pub fn parse_swap_global_config(data: &[u8]) -> (r: Result<SwapGlobalConfig, GlobalParseError>)
    ensures
        swap_config_valid(data@) ==> (r matches Ok(g) && swap_recipients_in(g.protocol_fee_recipients, data@)),
        !swap_config_valid(data@) ==> (r matches Err(e) && swap_config_error(e, data@)),
{
    if data.len() != SWAP_GLOBAL_CONFIG_EXPECTED_LEN {
        return Err(GlobalParseError::SwapLayoutDrift { len: data.len(), expected_len: SWAP_GLOBAL_CONFIG_EXPECTED_LEN });
    }
    if !starts_with(data, &SWAP_DISC) {
        let got = first8(data);
        return Err(GlobalParseError::SwapDiscriminatorMismatch { got, expected: SWAP_DISC });
    }
    Ok(SwapGlobalConfig { protocol_fee_recipients: read_pubkey_array8(data, SWAP_FEE_RECIPIENTS_OFFSET) })
}

/// Protocol fee recipients of the PumpSwap GlobalConfig account.
#[derive(Clone, Copy, Debug)]
pub struct SwapFeeRecipients {
    pub recipients: [Pubkey; 8],
}

/// Parses the protocol fee recipients of the GlobalConfig account.
pub fn parse_swap_fee_recipients(data: &[u8]) -> (r: Result<SwapFeeRecipients, GlobalParseError>)
    ensures
        swap_config_valid(data@) ==> (r matches Ok(p) && swap_recipients_in(p.recipients, data@)),
        !swap_config_valid(data@) ==> (r matches Err(e) && swap_config_error(e, data@)),
{
    let g = match parse_swap_global_config(data) {
        Ok(g) => g,
        Err(e) => return Err(e),
    };
    Ok(SwapFeeRecipients { recipients: g.protocol_fee_recipients })
}

impl SwapFeeRecipients {
    /// The recipient for `index`; the default protocol recipient when none is set.
    pub fn select(&self, index: u64) -> (r: Pubkey)
        ensures
            r == selected(self.recipients@, index, protocol_fee_fallback()),
    {
        let s: &[Pubkey] = &self.recipients;
        select_from(s, index, Pubkey(PROTOCOL_FEE_RECIPIENT))
    }
}

/// Reads the protocol fee recipients from the GlobalConfig account data,
/// `None` when the account could not be fetched.
pub fn read_swap_fee_recipients(account_data: Option<&[u8]>) -> (r: Result<SwapFeeRecipients, GlobalParseError>)
    ensures
        account_data is None ==> r == Err::<SwapFeeRecipients, GlobalParseError>(GlobalParseError::SwapConfigUnreadable),
        account_data matches Some(d) ==> (swap_config_valid(d@) ==> (r matches Ok(p) && swap_recipients_in(p.recipients, d@))),
        account_data matches Some(d) ==> (!swap_config_valid(d@) ==> (r matches Err(e) && swap_config_error(e, d@))),
{
    match account_data {
        Some(d) => parse_swap_fee_recipients(d),
        None => Err(GlobalParseError::SwapConfigUnreadable),
    }
}

/// The protocol fee recipient to use: the one chosen for `index` among the
/// parsed recipients, or the default `PROTOCOL_FEE_RECIPIENT` when parsing failed.
pub fn select_swap_fee_recipient(parsed: &Result<SwapFeeRecipients, GlobalParseError>, index: u64) -> (r: Pubkey)
    ensures
        parsed matches Ok(p) ==> r == selected(p.recipients@, index, protocol_fee_fallback()),
        parsed is Err ==> r@ == PROTOCOL_FEE_RECIPIENT@,
{
    match parsed {
        Ok(p) => p.select(index),
        Err(_) => Pubkey(PROTOCOL_FEE_RECIPIENT),
    }
}

} // verus!
