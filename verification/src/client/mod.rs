//! The client's side of a session.

pub mod clipboard;
pub mod control;
pub mod demux;
pub mod frame_channel;
pub mod link;
pub mod pads;
pub mod planes;
pub mod pump;
pub mod recovery;
pub mod speedtest;
