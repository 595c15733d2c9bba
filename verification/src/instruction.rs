//! Program instructions as plain values: a program id, account metas and data.

use vstd::prelude::*;
use crate::pubkey::Pubkey;

verus! {

/// One account that an instruction reads or writes.
#[derive(Clone, Copy, PartialEq, Eq, Debug)]
pub struct AccountMeta {
    pub pubkey: Pubkey,
    pub is_signer: bool,
    pub is_writable: bool,
}

/// The mathematical value of an [`AccountMeta`].
pub struct MetaView {
    pub key: Seq<u8>,
    pub signer: bool,
    pub writable: bool,
}

impl View for AccountMeta {
    type V = MetaView;

    open spec fn view(&self) -> MetaView {
        MetaView { key: self.pubkey@, signer: self.is_signer, writable: self.is_writable }
    }
}

/// A writable account (`AccountMeta::new`).
pub open spec fn writable(key: Seq<u8>, signer: bool) -> MetaView {
    MetaView { key, signer, writable: true }
}

/// A read-only account (`AccountMeta::new_readonly`).
pub open spec fn readonly(key: Seq<u8>, signer: bool) -> MetaView {
    MetaView { key, signer, writable: false }
}

impl AccountMeta {
    /// A writable account.
    pub fn new(pubkey: Pubkey, is_signer: bool) -> (m: AccountMeta)
        ensures
            m@ == writable(pubkey@, is_signer),
    {
        AccountMeta { pubkey, is_signer, is_writable: true }
    }

    /// A read-only account.
    pub fn new_readonly(pubkey: Pubkey, is_signer: bool) -> (m: AccountMeta)
        ensures
            m@ == readonly(pubkey@, is_signer),
    {
        AccountMeta { pubkey, is_signer, is_writable: false }
    }
}

/// An instruction to one program.
#[derive(Clone, PartialEq, Eq, Debug)]
pub struct Instruction {
    pub program_id: Pubkey,
    pub accounts: Vec<AccountMeta>,
    pub data: Vec<u8>,
}

/// The mathematical value of an [`Instruction`].
pub struct InstructionView {
    pub program: Seq<u8>,
    pub accounts: Seq<MetaView>,
    pub data: Seq<u8>,
}

/// The views of a sequence of account metas.
pub open spec fn metas_view(metas: Seq<AccountMeta>) -> Seq<MetaView> {
    metas.map_values(|m: AccountMeta| m@)
}

impl View for Instruction {
    type V = InstructionView;

    open spec fn view(&self) -> InstructionView {
        InstructionView {
            program: self.program_id@,
            accounts: metas_view(self.accounts@),
            data: self.data@,
        }
    }
}

/// The views of a sequence of instructions.
pub open spec fn instructions_view(ixs: Seq<Instruction>) -> Seq<InstructionView> {
    ixs.map_values(|ix: Instruction| ix@)
}

/// Whether an optional built instruction is the one that `expected` describes:
/// present exactly when `expected` is, and then equal to it.
pub open spec fn built_as(r: Option<Instruction>, expected: Option<InstructionView>) -> bool {
    match r {
        Some(ix) => expected == Some(ix@),
        None => expected is None,
    }
}

} // verus!
