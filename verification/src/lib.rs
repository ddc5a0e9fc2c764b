//! A resilient discovery and query layer for ASIC miners that expose an
//! embedded HTTP API on the local network.
//!
//! The crate models the decision logic of that layer: which URLs a probe
//! tries and in what order, what counts as a hit, how heterogeneous JSON
//! replies are normalized into [`miner::DiscoveredMiner`] records, how a
//! subnet scan is planned and its results aggregated, and how the targeted
//! restart / settings commands interpret a device's reply. The network I/O
//! itself is left to the caller, which feeds each HTTP outcome back in as an
//! [`http::HttpEvent`].

pub mod commands;
pub mod errors;
pub mod http;
pub mod json;
pub mod miner;
pub mod net;
pub mod probe;
pub mod scan;
pub mod text;
