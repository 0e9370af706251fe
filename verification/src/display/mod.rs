//! The host's display topology: what may be changed around a stream, and how
//! it is put back.

pub mod adl_emul;
pub mod adl_laws;
pub mod adl_walk;
pub mod console;
pub mod journal;
pub mod monitor_devnode;
pub mod topology_churn;
pub mod wide;
