//! Account addresses: 32 raw bytes.

use vstd::prelude::*;

verus! {

/// A 32-byte Solana account address.
#[derive(Clone, Copy, PartialEq, Eq, Debug)]
pub struct Pubkey(pub [u8; 32]);

impl View for Pubkey {
    type V = Seq<u8>;

    open spec fn view(&self) -> Seq<u8> {
        self.0@
    }
}

/// The all-zero address (`Pubkey::default()`), used on chain as an empty slot.
pub open spec fn zero_key() -> Seq<u8> {
    Seq::new(32, |i: int| 0u8)
}

impl Pubkey {
    /// Wraps 32 bytes as an address.
    pub fn new_from_array(bytes: [u8; 32]) -> (k: Pubkey)
        ensures
            k@ == bytes@,
    {
        Pubkey(bytes)
    }

    /// The raw bytes of the address.
    pub fn to_bytes(&self) -> (b: [u8; 32])
        ensures
            b@ == self@,
    {
        self.0
    }

    /// The all-zero address.
    pub fn zeroed() -> (k: Pubkey)
        ensures
            k@ == zero_key(),
    {
        let k = Pubkey([0u8; 32]);
        assert(k@ =~= zero_key());
        k
    }

    /// Byte-wise equality of two addresses.
    pub fn equals(&self, other: &Pubkey) -> (r: bool)
        ensures
            r == (self@ == other@),
    {
        let mut i: usize = 0;
        while i < 32
            invariant
                i <= 32,
                forall|j: int| 0 <= j < i ==> self@[j] == other@[j],
            decreases 32 - i,
        {
            if self.0[i] != other.0[i] {
                assert(self@[i as int] != other@[i as int]);
                return false;
            }
            i = i + 1;
        }
        assert(self@ =~= other@);
        true
    }

    /// Whether this is the all-zero address.
    pub fn is_default(&self) -> (r: bool)
        ensures
            r == (self@ == zero_key()),
    {
        let z = Pubkey::zeroed();
        self.equals(&z)
    }

    /// Reads 32 bytes at `offset` as an address.
    pub fn read_at(data: &[u8], offset: usize) -> (k: Pubkey)
        requires
            offset + 32 <= data@.len(),
        ensures
            k@ == data@.subrange(offset as int, offset + 32),
    {
        let len = data.len();
        let mut bytes = [0u8; 32];
        let mut i: usize = 0;
        while i < 32
            invariant
                i <= 32,
                len == data@.len(),
                offset + 32 <= data@.len(),
                forall|j: int| 0 <= j < i ==> bytes@[j] == data@[offset + j],
            decreases 32 - i,
        {
            bytes[i] = data[offset + i];
            i = i + 1;
        }
        let k = Pubkey(bytes);
        assert(k@ =~= data@.subrange(offset as int, offset + 32));
        k
    }

    /// The bytes of the address as a vector.
    pub fn to_vec(&self) -> (v: Vec<u8>)
        ensures
            v@ == self@,
    {
        let s: &[u8] = &self.0;
        vstd::slice::slice_to_vec(s)
    }
}

} // verus!
