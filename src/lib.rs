//! Balance lookups for a set of ledger accounts over a JSON-RPC endpoint.
//!
//! The library builds each request, decides each account's outcome from what
//! the transport handed back, and assembles the ordered report of a fetch pass.
//! Sending the requests and running them concurrently is left to the caller.

pub mod outcome;
pub mod request;
pub mod response;
pub mod report;
