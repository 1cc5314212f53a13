//! A chain-agnostic client core: configuration and domain values for
//! querying blockchain networks, the chain-specific interpretation of
//! remote results for a Solana binding, and a retry-with-backoff engine
//! that decides how a fallible remote call is retried.

pub mod blockchains;
pub mod errors;
pub mod retry;
pub mod solana;
