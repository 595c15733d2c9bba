//! User settings: defaults and the `config set` rules.

use vstd::prelude::*;

verus! {

/// User settings, stored as JSON in the configuration directory.
#[derive(Clone, Debug)]
pub struct Settings {
    pub rpc_url: String,
    pub active_key: String,
    pub output: String,
    /// Priority fee in micro-lamports per compute unit, when configured.
    pub priority_fee: Option<u64>,
    /// Jito tip in lamports, when configured.
    pub jito_tip: Option<u64>,
}

/// Default RPC endpoint.
pub fn default_rpc() -> (s: String)
    ensures
        s@ == "https://api.mainnet-beta.solana.com"@,
{
    "https://api.mainnet-beta.solana.com".to_owned()
}

/// Default key name.
pub fn default_key() -> (s: String)
    ensures
        s@ == "default"@,
{
    "default".to_owned()
}

/// Default output format.
pub fn default_output() -> (s: String)
    ensures
        s@ == "table"@,
{
    "table".to_owned()
}

impl Default for Settings {
    /// Mainnet RPC, key `default`, table output, no priority fee or tip.
    fn default() -> (s: Self)
        ensures
            s.rpc_url@ == "https://api.mainnet-beta.solana.com"@,
            s.active_key@ == "default"@,
            s.output@ == "table"@,
            s.priority_fee is None,
            s.jito_tip is None,
    {
        Settings {
            rpc_url: default_rpc(),
            active_key: default_key(),
            output: default_output(),
            priority_fee: None,
            jito_tip: None,
        }
    }
}

/// A setting name that `config set` does not know.
#[derive(Clone, Debug)]
pub struct UnknownConfigKey {
    pub key: String,
}

impl UnknownConfigKey {
    /// "unknown config key: {key}. valid: rpc_url, active_key, output"
    pub fn message(&self) -> (s: String)
        ensures
            s@ == "unknown config key: "@ + self.key@ + ". valid: rpc_url, active_key, output"@,
    {
        let mut s = "unknown config key: ".to_owned();
        vstd::string::StringExecFns::append(&mut s, self.key.as_str());
        vstd::string::StringExecFns::append(&mut s, ". valid: rpc_url, active_key, output");
        s
    }
}

impl Settings {
    /// `config set key value`: sets `rpc_url`, `active_key` or `output`;
    /// any other key is refused and nothing changes.
    pub fn set(&mut self, key: &str, value: &str) -> (r: Result<(), UnknownConfigKey>)
        ensures
            key@ == "rpc_url"@ ==> r is Ok && final(self).rpc_url@ == value@
                && final(self).active_key == old(self).active_key && final(self).output == old(self).output,
            key@ == "active_key"@ ==> r is Ok && final(self).active_key@ == value@
                && final(self).rpc_url == old(self).rpc_url && final(self).output == old(self).output,
            key@ == "output"@ ==> r is Ok && final(self).output@ == value@
                && final(self).rpc_url == old(self).rpc_url && final(self).active_key == old(self).active_key,
            key@ != "rpc_url"@ && key@ != "active_key"@ && key@ != "output"@ ==> (r matches Err(e)
                && e.key@ == key@ && final(self).rpc_url == old(self).rpc_url
                && final(self).active_key == old(self).active_key && final(self).output == old(self).output),
            final(self).priority_fee == old(self).priority_fee,
            final(self).jito_tip == old(self).jito_tip,
    {
        proof {
            reveal_strlit("rpc_url");
            reveal_strlit("active_key");
            reveal_strlit("output");
            assert("rpc_url"@.len() == 7 && "active_key"@.len() == 10 && "output"@.len() == 6);
            assert("rpc_url"@[0] != "output"@[0]);
        }
        let k = key.to_owned();
        let rpc_url = "rpc_url".to_owned();
        let active_key = "active_key".to_owned();
        let output = "output".to_owned();
        let is_rpc_url = k == rpc_url;
        let is_active_key = k == active_key;
        let is_output = k == output;
        if is_rpc_url {
            self.rpc_url = value.to_owned();
            Ok(())
        } else if is_active_key {
            self.active_key = value.to_owned();
            Ok(())
        } else if is_output {
            self.output = value.to_owned();
            Ok(())
        } else {
            Err(UnknownConfigKey { key: k })
        }
    }
}

} // verus!
