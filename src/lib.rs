//! A verified core for an HTTP client that a host runtime drives: request
//! preparation, transport configuration, fingerprint naming of downloads,
//! the cancellation gate, batch aggregation and the streaming download
//! session, each with its contract.

pub mod types;
pub mod error;
pub mod http_parse;
pub mod headers;
pub mod response;
pub mod naming;
pub mod transport;
pub mod config;
pub mod client;
pub mod gate;
pub mod batch;
pub mod download;
