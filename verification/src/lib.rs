//! Verified core of a low-latency game-streaming client.

pub mod abi;
pub mod abr;
pub mod client;
pub mod config;
pub mod display;
pub mod error;
pub mod math;
pub mod quic;
pub mod session;
pub mod stats;
pub mod text;
