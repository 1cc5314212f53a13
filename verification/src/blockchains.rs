use vstd::prelude::*;
use vstd::string::StringExecFns;

use crate::errors::ClientError;
use crate::retry::RetryPolicy;

verus! {

/// A snapshot of one account on a chain, normalized from a remote query.
#[derive(Debug, Clone)]
pub struct AccountInfo {
    /// Ticker of the unit the amount is denominated in, for example SOL.
    pub symbol: String,
    /// Amount held by the account, in the chain's base denomination.
    pub amount: u64,
    /// Public address of the account.
    pub address: [u8; 32],
}

impl AccountInfo {
    /// Build an account snapshot. The symbol must be non-empty; any
    /// amount, zero included, and any address are accepted.
    pub fn new(symbol: &str, amount: u64, address: [u8; 32]) -> (r: Result<
        AccountInfo,
        ClientError,
    >)
        ensures
            symbol@.len() == 0 ==> (r matches Err(e) && e is Validation),
            symbol@.len() > 0 ==> (r matches Ok(info)
                && info.symbol@ == symbol@
                && info.amount == amount
                && info.address == address),
    {
        if symbol.is_empty() {
            return Err(ClientError::Validation(String::from_str("symbol cannot be empty")));
        }
        Ok(AccountInfo { symbol: symbol.to_owned(), amount, address })
    }
}

/// Which network namespace a client targets.
#[derive(Debug, Clone, Copy, PartialEq, Eq, Structural)]
pub enum Environment {
    Localnet,
    Devnet,
    Mainnet,
}

/// Ordered levels of finality a caller is willing to accept for a read.
#[derive(Debug, Clone, Copy, PartialEq, Eq, Structural)]
pub enum Commitment {
    Processed,
    Confirmed,
    Finalized,
}

/// Connection configuration a chain binding is constructed from; it is
/// fixed once the binding exists.
#[derive(Debug, Clone)]
pub struct ClientConfig {
    pub environment: Environment,
    pub rpc_url: Option<String>,
    pub timeout_milliseconds: u64,
    pub commitment_level: Commitment,
    pub retry_policy: RetryPolicy,
}

impl Default for ClientConfig {
    /// Localnet, no endpoint, a five-second timeout, confirmed reads,
    /// and the stock retry policy.
    fn default() -> (r: Self)
        ensures
            r.environment == Environment::Localnet,
            r.rpc_url is None,
            r.timeout_milliseconds == 5000,
            r.commitment_level == Commitment::Confirmed,
            r.retry_policy == RetryPolicy::default_spec(),
    {
        ClientConfig {
            environment: Environment::Localnet,
            rpc_url: None,
            timeout_milliseconds: 5000,
            commitment_level: Commitment::Confirmed,
            retry_policy: RetryPolicy::default(),
        }
    }
}

impl ClientConfig {
    /// A configuration for the given environment and endpoint, with
    /// the defaults everywhere else.
    pub fn new_with_rpc(environment: Environment, rpc_url: String) -> (r: Self)
        ensures
            r.environment == environment,
            (r.rpc_url matches Some(u) && u@ == rpc_url@),
            r.timeout_milliseconds == 5000,
            r.commitment_level == Commitment::Confirmed,
            r.retry_policy == RetryPolicy::default_spec(),
    {
        let defaults = Self::default();
        ClientConfig {
            environment,
            rpc_url: Some(rpc_url),
            timeout_milliseconds: defaults.timeout_milliseconds,
            commitment_level: defaults.commitment_level,
            retry_policy: defaults.retry_policy,
        }
    }

    /// The same configuration with the commitment level replaced.
    pub fn with_commitment(self, commitment: Commitment) -> (r: Self)
        ensures
            r.commitment_level == commitment,
            r.environment == self.environment,
            r.rpc_url == self.rpc_url,
            r.timeout_milliseconds == self.timeout_milliseconds,
            r.retry_policy == self.retry_policy,
    {
        ClientConfig { commitment_level: commitment, ..self }
    }

    /// The same configuration with the retry policy replaced.
    pub fn with_retry_policy(self, retry_policy: RetryPolicy) -> (r: Self)
        ensures
            r.retry_policy == retry_policy,
            r.environment == self.environment,
            r.rpc_url == self.rpc_url,
            r.timeout_milliseconds == self.timeout_milliseconds,
            r.commitment_level == self.commitment_level,
    {
        ClientConfig { retry_policy, ..self }
    }

    /// The same configuration with the timeout replaced.
    pub fn with_timeout(self, timeout_ms: u64) -> (r: Self)
        ensures
            r.timeout_milliseconds == timeout_ms,
            r.environment == self.environment,
            r.rpc_url == self.rpc_url,
            r.commitment_level == self.commitment_level,
            r.retry_policy == self.retry_policy,
    {
        ClientConfig { timeout_milliseconds: timeout_ms, ..self }
    }
}

} // verus!
