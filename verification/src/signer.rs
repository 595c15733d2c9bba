//! Transaction options and the instruction list of a transaction: compute
//! budget, optional priority fee and Jito tip, then the user's instructions.

use vstd::prelude::*;
use crate::bytes::{u32_le, u64_le};
use crate::config::Settings;
use crate::constants::{COMPUTE_BUDGET_PROGRAM_ID, SYSTEM_PROGRAM_ID};
use crate::instruction::{Instruction, InstructionView, instructions_view, writable};
use crate::jito::{select_tip_account, tip_account_of};
use crate::outside::{set_compute_unit_limit, set_compute_unit_price, system_transfer};
use crate::pubkey::Pubkey;

verus! {

/// Compute unit limit of single-signer trades.
pub const DEFAULT_CU_LIMIT: u32 = 100_000;

/// Default Jito tip, in lamports (0.00001 SOL).
pub const DEFAULT_JITO_TIP: u64 = 10_000;

/// How a transaction is sent.
#[derive(Clone, Copy, PartialEq, Eq, Debug, Structural)]
pub struct TxOptions {
    /// Micro-lamports per compute unit; 0 = none.
    pub priority_fee: u64,
    /// Send as a Jito bundle.
    pub jito: bool,
    /// Jito tip, in lamports.
    pub jito_tip: u64,
}

impl Default for TxOptions {
    /// No priority fee, plain RPC, default tip.
    fn default() -> (o: Self)
        ensures
            o == (TxOptions { priority_fee: 0, jito: false, jito_tip: DEFAULT_JITO_TIP }),
    {
        TxOptions { priority_fee: 0, jito: false, jito_tip: DEFAULT_JITO_TIP }
    }
}

impl TxOptions {
    /// Resolve: command-line values override the settings, the settings
    /// override the defaults (no priority fee, default tip).
    pub fn resolve(
        cli_priority_fee: Option<u64>,
        cli_jito: bool,
        cli_jito_tip: Option<u64>,
        settings: &Settings,
    ) -> (o: TxOptions)
        ensures
            o.priority_fee == match cli_priority_fee {
                Some(f) => f,
                None => match settings.priority_fee {
                    Some(f) => f,
                    None => 0,
                },
            },
            o.jito == cli_jito,
            o.jito_tip == match cli_jito_tip {
                Some(t) => t,
                None => match settings.jito_tip {
                    Some(t) => t,
                    None => DEFAULT_JITO_TIP,
                },
            },
    {
        let priority_fee = match cli_priority_fee {
            Some(f) => f,
            None => match settings.priority_fee {
                Some(f) => f,
                None => 0,
            },
        };
        let jito_tip = match cli_jito_tip {
            Some(t) => t,
            None => match settings.jito_tip {
                Some(t) => t,
                None => DEFAULT_JITO_TIP,
            },
        };
        TxOptions { priority_fee, jito: cli_jito, jito_tip }
    }

    /// `"jito"` for bundles, `"rpc"` otherwise.
    pub fn mode_label(&self) -> (s: &'static str)
        ensures
            self.jito ==> s@ == "jito"@,
            !self.jito ==> s@ == "rpc"@,
    {
        if self.jito {
            "jito"
        } else {
            "rpc"
        }
    }
}

/// The compute-unit-limit instruction.
pub open spec fn cu_limit_view(units: u32) -> InstructionView {
    InstructionView {
        program: COMPUTE_BUDGET_PROGRAM_ID@,
        accounts: Seq::empty(),
        data: seq![2u8] + u32_le(units),
    }
}

/// The compute-unit-price instruction.
pub open spec fn cu_price_view(micro_lamports: u64) -> InstructionView {
    InstructionView {
        program: COMPUTE_BUDGET_PROGRAM_ID@,
        accounts: Seq::empty(),
        data: seq![3u8] + u64_le(micro_lamports),
    }
}

/// The System transfer instruction.
pub open spec fn transfer_view(from: Seq<u8>, to: Seq<u8>, lamports: u64) -> InstructionView {
    InstructionView {
        program: SYSTEM_PROGRAM_ID@,
        accounts: seq![writable(from, true), writable(to, false)],
        data: u32_le(2) + u64_le(lamports),
    }
}

/// The instructions of a transaction: the compute unit limit, the unit
/// price when a priority fee is set, a tip to the payer's Jito tip account
/// when sending by Jito, then the user's instructions in their order.
pub open spec fn assembled(
    payer: Seq<u8>,
    user: Seq<InstructionView>,
    cu_limit: u32,
    opts: TxOptions,
) -> Seq<InstructionView> {
    let price = if opts.priority_fee > 0 {
        seq![cu_price_view(opts.priority_fee)]
    } else {
        Seq::empty()
    };
    let tip = if opts.jito {
        seq![transfer_view(payer, tip_account_of(payer), opts.jito_tip)]
    } else {
        Seq::empty()
    };
    seq![cu_limit_view(cu_limit)] + price + tip + user
}

/// Builds the instruction list of a transaction.
pub fn assemble_instructions(
    payer: &Pubkey,
    user_instructions: Vec<Instruction>,
    cu_limit: u32,
    opts: &TxOptions,
) -> (ixs: Vec<Instruction>)
    ensures
        instructions_view(ixs@) == assembled(payer@, instructions_view(user_instructions@), cu_limit, *opts),
{
    let mut ixs: Vec<Instruction> = Vec::new();
    ixs.push(set_compute_unit_limit(cu_limit));
    if opts.priority_fee > 0 {
        ixs.push(set_compute_unit_price(opts.priority_fee));
    }
    if opts.jito {
        let tip_account = select_tip_account(payer);
        ixs.push(system_transfer(payer, &tip_account, opts.jito_tip));
    }
    let ghost before = ixs@;
    let mut user = user_instructions;
    ixs.append(&mut user);
    assert(instructions_view(ixs@) =~= assembled(
        payer@,
        instructions_view(user_instructions@),
        cu_limit,
        *opts,
    ));
    ixs
}

} // verus!
