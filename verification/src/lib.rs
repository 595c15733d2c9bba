//! Verified core of a command-line client for the Pump.fun bonding-curve
//! program and the PumpSwap AMM on Solana: account layouts, pricing math,
//! fee-recipient selection, program-derived addresses and instruction
//! encoding.

pub mod bytes;
pub mod constants;
pub mod instruction;
pub mod outside;
pub mod pubkey;
pub mod pda;
pub mod token_accounts;
pub mod pump_swap;
pub mod bonding_curve;
pub mod instructions;
pub mod idl;
pub mod global;
pub mod rug_check;
pub mod cmd;
pub mod config;
pub mod jito;
pub mod signer;
pub mod text;
pub mod trade;
pub mod wallet;
pub mod snipe;
pub mod create;
