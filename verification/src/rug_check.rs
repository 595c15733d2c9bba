//! On-chain rug detection heuristics over data read by RPC.

use vstd::prelude::*;
use crate::bytes::{le_u32, read_u32_le};

verus! {

/// A reason to distrust a token.
#[derive(Clone, Copy, PartialEq, Eq, Debug, Structural)]
pub enum RugWarning {
    /// "mint authority still active — supply can be inflated"
    MintAuthorityActive,
    /// "freeze authority active — your tokens can be frozen"
    FreezeAuthorityActive,
    /// "creator balance {balance} SOL < minimum {min} SOL — likely throwaway"
    /// (both in lamports here).
    LowCreatorBalance { balance: u64, min: u64 },
    /// "creator has only {count} transactions — likely new wallet"
    FewCreatorTransactions { count: usize },
}

/// Rug check results for a single token.
#[derive(Clone, Debug)]
pub struct RugReport {
    pub mint_authority_active: bool,
    pub freeze_authority_active: bool,
    pub creator_sol_balance: u64,
    pub creator_tx_count: usize,
    pub warnings: Vec<RugWarning>,
}

impl RugReport {
    /// A token is safe when no check raised a warning.
    pub fn is_safe(&self) -> (r: bool)
        ensures
            r == (self.warnings@.len() == 0),
    {
        self.warnings.len() == 0
    }
}

/// Which checks to run and their thresholds.
#[derive(Clone, Copy, Debug)]
pub struct RugCheckConfig {
    pub min_creator_sol: Option<u64>,
    pub min_creator_txns: Option<usize>,
    pub reject_mint_authority: bool,
    pub reject_freeze_authority: bool,
}

impl Default for RugCheckConfig {
    /// 0.05 SOL and 5 transactions at least from the creator; an active
    /// freeze authority is refused, an active mint authority is not (Pump
    /// keeps it during the bonding curve).
    fn default() -> (c: Self)
        ensures
            c.min_creator_sol == Some(50_000_000u64),
            c.min_creator_txns == Some(5usize),
            !c.reject_mint_authority,
            c.reject_freeze_authority,
    {
        RugCheckConfig {
            min_creator_sol: Some(50_000_000),
            min_creator_txns: Some(5),
            reject_mint_authority: false,
            reject_freeze_authority: true,
        }
    }
}

/// Size of an SPL Token mint account.
pub const MINT_ACCOUNT_LEN: usize = 82;

/// Whether the mint authority option tag (`u32` at 0) is set, and whether the
/// freeze authority option tag (`u32` at 46) is set.
pub open spec fn mint_authorities(data: Seq<u8>) -> (bool, bool) {
    (
        data.len() >= 4 && le_u32(data.subrange(0, 4)) == 1,
        data.len() >= 50 && le_u32(data.subrange(46, 50)) == 1,
    )
}

/// Parses mint authority and freeze authority from raw SPL Token mint data.
/// Layout: `[0..4]` option tag + `[4..36]` mint authority + … `[46..50]` option
/// tag + `[50..82]` freeze authority.
pub fn parse_mint_authorities(data: &[u8]) -> (r: (bool, bool))
    ensures
        r == mint_authorities(data@),
{
    let mint_auth = data.len() >= 4 && read_u32_le(data, 0) == 1;
    let freeze_auth = data.len() >= 50 && read_u32_le(data, 46) == 1;
    (mint_auth, freeze_auth)
}

/// The authority flags the check reads from a mint account, if it was
/// fetched and is at least a mint's size.
pub open spec fn checked_authorities(mint_data: Option<Seq<u8>>) -> (bool, bool) {
    match mint_data {
        Some(d) => if d.len() >= MINT_ACCOUNT_LEN {
            mint_authorities(d)
        } else {
            (false, false)
        },
        None => (false, false),
    }
}

/// The warnings, in order, for the given observations.
pub open spec fn rug_warnings(
    authorities: (bool, bool),
    balance: u64,
    txns: usize,
    config: RugCheckConfig,
) -> Seq<RugWarning> {
    let w1 = if authorities.0 && config.reject_mint_authority {
        seq![RugWarning::MintAuthorityActive]
    } else {
        Seq::empty()
    };
    let w2 = if authorities.1 && config.reject_freeze_authority {
        seq![RugWarning::FreezeAuthorityActive]
    } else {
        Seq::empty()
    };
    let w3 = match config.min_creator_sol {
        Some(min) => if balance < min {
            seq![RugWarning::LowCreatorBalance { balance, min }]
        } else {
            Seq::empty()
        },
        None => Seq::empty(),
    };
    let w4 = match config.min_creator_txns {
        Some(min) => if txns < min {
            seq![RugWarning::FewCreatorTransactions { count: txns }]
        } else {
            Seq::empty()
        },
        None => Seq::empty(),
    };
    w1 + w2 + w3 + w4
}

/// Runs the rug checks on what RPC returned: the mint account's data
/// (`None` when it could not be fetched), the creator's balance and the
/// number of the creator's recent signatures (each `None` when the request
/// failed, then counted as 0).
pub fn check(
    mint_account_data: Option<&[u8]>,
    creator_balance: Option<u64>,
    creator_signatures: Option<usize>,
    config: &RugCheckConfig,
) -> (r: RugReport)
    ensures
        ({
            let auth = checked_authorities(
                match mint_account_data {
                    Some(d) => Some(d@),
                    None => None,
                },
            );
            let balance = match creator_balance {
                Some(b) => b,
                None => 0,
            };
            let txns = match creator_signatures {
                Some(n) => n,
                None => 0,
            };
            &&& r.mint_authority_active == auth.0
            &&& r.freeze_authority_active == auth.1
            &&& r.creator_sol_balance == balance
            &&& r.creator_tx_count == txns
            &&& r.warnings@ == rug_warnings(auth, balance, txns, *config)
        }),
{
    let (mint_auth, freeze_auth) = match mint_account_data {
        Some(d) => if d.len() >= MINT_ACCOUNT_LEN {
            parse_mint_authorities(d)
        } else {
            (false, false)
        },
        None => (false, false),
    };
    let mut warnings: Vec<RugWarning> = Vec::new();
    if mint_auth && config.reject_mint_authority {
        warnings.push(RugWarning::MintAuthorityActive);
    }
    if freeze_auth && config.reject_freeze_authority {
        warnings.push(RugWarning::FreezeAuthorityActive);
    }
    let creator_balance = match creator_balance {
        Some(b) => b,
        None => 0,
    };
    if let Some(min) = config.min_creator_sol {
        if creator_balance < min {
            warnings.push(RugWarning::LowCreatorBalance { balance: creator_balance, min });
        }
    }
    let creator_txns = match creator_signatures {
        Some(n) => n,
        None => 0,
    };
    if let Some(min) = config.min_creator_txns {
        if creator_txns < min {
            warnings.push(RugWarning::FewCreatorTransactions { count: creator_txns });
        }
    }
    let r = RugReport {
        mint_authority_active: mint_auth,
        freeze_authority_active: freeze_auth,
        creator_sol_balance: creator_balance,
        creator_tx_count: creator_txns,
        warnings,
    };
    assert(r.warnings@ =~= rug_warnings((mint_auth, freeze_auth), creator_balance, creator_txns, *config));
    r
}

} // verus!
