//! One closed report window, as the controller reads it.

use vstd::prelude::*;

verus! {

/// Length of a report window, in nanoseconds.
pub const WINDOW: u64 = 750_000_000;

/// The same length in microseconds, the unit the latency signals use.
pub const WINDOW_US: i64 = 750_000;

/// What the access units of a window were.
#[derive(Clone, Copy, Debug, PartialEq, Eq, Structural)]
pub enum WindowActivity {
    /// The host marks no repeats, so stillness cannot be told from motion.
    Unmarked,
    /// This many access units carried new content.
    Active(u32),
    /// Every access unit was a repeat of a still picture.
    Idle,
    /// No access unit arrived at all.
    Empty,
}

impl WindowActivity {
    /// Nothing but repeats: a picture standing still.
    #[verifier::allow_in_spec]
    pub fn idle(&self) -> bool
        returns
            *self == WindowActivity::Idle,
    {
        match self {
            WindowActivity::Idle => true,
            _ => false,
        }
    }

    /// Still or empty: a window that says nothing about the rate.
    #[verifier::allow_in_spec]
    pub fn quiet(&self) -> bool
        returns
            *self == WindowActivity::Idle || *self == WindowActivity::Empty,
    {
        match self {
            WindowActivity::Idle => true,
            WindowActivity::Empty => true,
            _ => false,
        }
    }
}

/// Delay of the window's first shards, with the line fitted through it.
#[derive(Clone, Copy, Debug, PartialEq, Eq, Structural)]
pub struct DelayTrend {
    pub samples: u32,
    pub mean_us: i64,
    /// How far the fitted delay moved from the window's start to its end.
    pub rise_us: i64,
    pub last_us: i64,
}

/// A closed report window.
#[derive(Clone, Copy, Debug, PartialEq, Eq, Structural)]
pub struct WindowSample {
    /// When the window closed, in nanoseconds of the session's monotonic clock.
    pub now: u64,
    /// Frames lost beyond repair.
    pub dropped: u64,
    /// Share of shards lost before repair, in parts per million.
    pub loss_ppm: u32,
    /// Capture to received.
    pub owd_mean_us: Option<i64>,
    /// Received to decoded.
    pub decode_mean_us: Option<i64>,
    /// Time in the host's encoder.
    pub encode_mean_us: Option<i64>,
    /// Wire rate that arrived.
    pub actual_kbps: u32,
    /// The client jumped to the live edge.
    pub flushed: bool,
    /// Keyframes asked for to repair the picture.
    pub recovery_kf: u32,
    pub activity: WindowActivity,
    pub delay: Option<DelayTrend>,
}

impl WindowSample {
    /// A window closing at `now` with nothing in it.
    #[verifier::allow_in_spec]
    pub fn at(now: u64) -> WindowSample
        returns
            (WindowSample {
                now,
                dropped: 0,
                loss_ppm: 0,
                owd_mean_us: None,
                decode_mean_us: None,
                encode_mean_us: None,
                actual_kbps: 0,
                flushed: false,
                recovery_kf: 0,
                activity: WindowActivity::Unmarked,
                delay: None,
            }),
    {
        WindowSample {
            now,
            dropped: 0,
            loss_ppm: 0,
            owd_mean_us: None,
            decode_mean_us: None,
            encode_mean_us: None,
            actual_kbps: 0,
            flushed: false,
            recovery_kf: 0,
            activity: WindowActivity::Unmarked,
            delay: None,
        }
    }
}

/// Repeats alone are idle; repeats alone and nothing at all are quiet. An empty
/// sample says nothing but when it closed.
pub proof fn law_stillness_is_told_from_motion(a: WindowActivity, now: u64)
    ensures
        a.idle() <==> a is Idle,
        a.quiet() <==> a is Idle || a is Empty,
        ({
            let w = WindowSample::at(now);
            &&& w.now == now && w.dropped == 0 && w.loss_ppm == 0 && w.actual_kbps == 0
                && w.recovery_kf == 0 && !w.flushed
            &&& w.owd_mean_us is None && w.decode_mean_us is None && w.encode_mean_us is None
                && w.delay is None && w.activity is Unmarked
        }),
{
}

} // verus!
