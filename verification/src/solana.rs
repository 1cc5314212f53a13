use vstd::prelude::*;
use vstd::string::StringExecFns;

use crate::blockchains::{AccountInfo, ClientConfig, Commitment, Environment};
use crate::errors::ClientError;

verus! {

/// The ticker of the chain's native unit.
pub open spec fn native_symbol_spec() -> Seq<char> {
    "SOL"@
}

/// The network-name component of the chain identity string.
pub open spec fn network_name_spec(environment: Environment) -> Seq<char> {
    match environment {
        Environment::Mainnet => "mainnet-beta"@,
        Environment::Devnet => "devnet"@,
        Environment::Localnet => "localnet"@,
    }
}

/// The name of the network namespace the environment selects.
pub fn network_name(environment: Environment) -> (r: &'static str)
    ensures
        r@ == network_name_spec(environment),
{
    match environment {
        Environment::Mainnet => "mainnet-beta",
        Environment::Devnet => "devnet",
        Environment::Localnet => "localnet",
    }
}

/// The composite chain identity: the chain name, the network name and
/// the genesis identifier, joined by dashes.
pub open spec fn chain_id_spec(environment: Environment, genesis: Seq<char>) -> Seq<char> {
    "solana-"@ + network_name_spec(environment) + "-"@ + genesis
}

/// Format the chain identity from the environment and the genesis
/// identifier reported by the node.
pub fn chain_id(environment: Environment, genesis: &str) -> (r: String)
    ensures
        r@ == chain_id_spec(environment, genesis@),
{
    let mut id = String::from_str("solana-");
    id.append(network_name(environment));
    id.append("-");
    id.append(genesis);
    id
}

/// The verified core of the Solana chain binding: the validated
/// configuration and the chain-specific reading of remote results.
/// The remote-call handle built from it lives with the caller; every
/// method here takes `&self`, so concurrent calls share no mutable
/// state.
#[derive(Debug, Clone)]
pub struct SolanaBinding {
    config: ClientConfig,
}

impl SolanaBinding {
    /// The configuration the binding was constructed from.
    pub closed spec fn spec_config(&self) -> ClientConfig {
        self.config
    }

    /// A binding only ever exists with an endpoint configured.
    pub open spec fn wf(&self) -> bool {
        self.spec_config().rpc_url is Some
    }

    /// Construct the binding. A missing endpoint is a configuration
    /// error, surfaced at once; nothing is contacted here.
    pub fn new(config: ClientConfig) -> (r: Result<SolanaBinding, ClientError>)
        ensures
            config.rpc_url is Some ==> (r matches Ok(b) && b.wf() && b.spec_config() == config),
            config.rpc_url is None ==> (r matches Err(e) && e is Configuration),
    {
        if config.rpc_url.is_some() {
            Ok(SolanaBinding { config })
        } else {
            Err(ClientError::Configuration(String::from_str("no rpc_url found")))
        }
    }

    /// The configured endpoint, for building the remote-call handle.
    pub fn rpc_url(&self) -> (r: &str)
        requires
            self.wf(),
        ensures
            (self.spec_config().rpc_url matches Some(u) && r@ == u@),
    {
        match &self.config.rpc_url {
            Some(url) => url.as_str(),
            None => vstd::pervasive::unreached(),
        }
    }

    /// The configured timeout, in milliseconds.
    pub fn timeout_milliseconds(&self) -> (r: u64)
        ensures
            r == self.spec_config().timeout_milliseconds,
    {
        self.config.timeout_milliseconds
    }

    /// The configured commitment level.
    pub fn commitment_level(&self) -> (r: Commitment)
        ensures
            r == self.spec_config().commitment_level,
    {
        self.config.commitment_level
    }

    /// The environment the binding targets.
    pub fn environment(&self) -> (r: Environment)
        ensures
            r == self.spec_config().environment,
    {
        self.config.environment
    }

    /// The retry policy configured for this binding's remote calls.
    pub fn retry_policy(&self) -> (r: crate::retry::RetryPolicy)
        ensures
            r == self.spec_config().retry_policy,
    {
        self.config.retry_policy
    }

    /// Read a successful remote account fetch: the reported balance is
    /// the amount, the reported owner is the address, and the symbol
    /// is the chain's native unit.
    pub fn account_from_response(&self, lamports: u64, owner: [u8; 32]) -> (r: Result<
        AccountInfo,
        ClientError,
    >)
        ensures
            r matches Ok(info)
                && info.symbol@ == native_symbol_spec()
                && info.amount == lamports
                && info.address == owner,
    {
        proof {
            reveal_strlit("SOL");
        }
        AccountInfo::new("SOL", lamports, owner)
    }

    /// The chain identity for this binding's environment and the given
    /// genesis identifier.
    pub fn chain_identity(&self, genesis: &str) -> (r: String)
        ensures
            r@ == chain_id_spec(self.spec_config().environment, genesis@),
    {
        chain_id(self.environment(), genesis)
    }

    /// Token balances are an extension point that is not implemented
    /// yet; the call fails fast rather than guessing a resolution.
    pub fn token_balance(&self, _address: &str, _token_symbol: &str) -> (r: Result<
        u64,
        ClientError,
    >)
        ensures
            r matches Err(e) && e is NotImplemented,
    {
        Err(ClientError::NotImplemented)
    }
}

} // verus!
