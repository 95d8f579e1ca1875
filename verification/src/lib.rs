//! Verified core of a test-automation client for a blockchain node's
//! command-line daemon.
//!
//! The client shells out to an external chain daemon to store, instantiate,
//! execute and query smart contracts, and keeps a small local cache of
//! deployed-contract metadata. Everything the client *decides* or *computes*
//! lives here with a contract: the exact argument lists handed to the daemon,
//! the retry policy, the scanning of transaction logs for assigned code ids
//! and addresses, the assembly of contract metadata, and the contract cache.
//! The process invocations, JSON parsing and file I/O that surround these
//! decisions are driven by an unverified shell around this library.

pub mod args;
pub mod cache;
pub mod runner;
pub mod scan;
pub mod text;
pub mod types;
