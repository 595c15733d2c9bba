//! The command-line vocabulary shared by the client: output formats and the
//! `config` and `keys` actions.

use vstd::prelude::*;

verus! {

/// How results are printed.
#[derive(Clone, Copy, PartialEq, Eq, Debug, Structural)]
pub enum OutputFormat {
    Table,
    Json,
}

/// `config` subcommands.
#[derive(Clone, Debug)]
pub enum ConfigAction {
    /// List current configuration.
    List,
    /// Set a configuration value (`rpc_url`, `active_key`, `output`).
    SetValue { key: String, value: String },
}

/// `keys` subcommands.
#[derive(Clone, Debug)]
pub enum KeysAction {
    /// Generate a new keypair.
    Generate { name: String },
    /// Import a keypair from a base58 private key or a BIP39 seed phrase.
    Import { name: String, private_key: Option<String>, seed_phrase: Option<String> },
    /// List all stored keys.
    List,
    /// Set the active key.
    Use { name: String },
}

} // verus!
