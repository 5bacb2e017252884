//! PeerX trading-classroom logic: the state machines and arithmetic behind the
//! PeerX contracts and the cache-metrics exporter, with their contracts proved.
mod arith;
pub mod cache;
pub mod errors;
pub mod types;
pub mod treasury;
pub mod events;
pub mod kyc;
pub mod sqrt;
pub mod liquidity;
pub mod preflight;
pub mod swap;
pub mod contract;
pub mod exporter;
pub mod waitlist;
pub mod batch;
