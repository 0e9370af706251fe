//! Adaptive bitrate: the controller behind the automatic bitrate setting.
//!
//! One module per concern: `window` assembles a report window, `sample` is
//! the closed window, `verdict` scores it, `cap` holds the learned bounds and
//! their clocks, `growth` the climb law, `norms` what a rate looks like when
//! nothing is wrong. `wall`, `drain`, `decoder`, `encoder` and `host` are what
//! the session knows of the link, of its queue, and of each machine.
//! `controller` is the state they all move, `decide` folds a window into it,
//! `act` takes the move it licenses, and `laws` states what holds throughout.
//! `probe` and `capacity` measure the link, and `driver` is the whole of it.
//! `session` and `exchange` state what holds over a driver's whole life,
//! `reading` what a closed window says of what was heard, and `sending` what
//! each tick sends.

pub mod act;
pub mod cap;
pub mod capacity;
pub mod controller;
pub mod decide;
pub mod decoder;
pub mod drain;
pub mod driver;
pub mod encoder;
pub mod exchange;
pub mod governor;
pub mod growth;
pub mod host;
pub mod laws;
pub mod metrics;
pub mod norms;
pub mod probe;
pub mod reading;
pub mod sample;
pub mod sending;
pub mod session;
pub mod verdict;
pub mod wall;
pub mod window;

pub use cap::LearnedCap;
pub use controller::BitrateController;
pub use driver::{
    stream_ceiling_kbps, Action, ClosedWindow, Driver, DriverConfig, RampRecord, Tick, WindowRecord,
};
pub use probe::{ProbeReport, RampStep, RampStepEnd, RampSummary};
pub use sample::{DelayTrend, WindowActivity, WindowSample, WINDOW};
pub use verdict::Reason;
