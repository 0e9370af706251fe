//! The flat records an embedder in another language reads and fills.

pub mod clip;
pub mod config;
pub mod connect;
pub mod feedback;
pub mod rich;
