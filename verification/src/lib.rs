//! Token-quota metering over Limitador's HTTP API.
//!
//! A quota backend answers two questions about a principal, named by a descriptor
//! (`key: value`): is it within its budget, and how much did it just spend. Each question
//! is one POST. The library computes what is sent and what the answer means, and leaves the
//! exchange itself to its caller:
//!
//! - `backend`: verdicts, errors, and the contract of a quota backend;
//! - `client`: the backend that speaks to Limitador;
//! - `laws`: what a client's operations do, and how they relate;
//! - `metering`: what checks and debits amount to at a service that counts;
//! - `json`, `transport`: the calls into `serde_json` and `reqwest`.

pub mod backend;
pub mod client;
pub mod json;
pub mod laws;
pub mod metering;
pub mod transport;
