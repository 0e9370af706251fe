//! Wire vocabulary the session shares with the host.

use vstd::prelude::*;

verus! {

/// Video codecs, one bit each.
pub const CODEC_H264: u8 = 0x01;

pub const CODEC_HEVC: u8 = 0x02;

pub const CODEC_AV1: u8 = 0x04;

/// Chroma subsampling, as the bitstream spells it.
pub const CHROMA_IDC_420: u8 = 1;

pub const CHROMA_IDC_444: u8 = 3;

/// Which limit a host's bitrate acknowledgement names.
#[derive(Clone, Copy, Debug, PartialEq, Eq, Structural)]
pub enum AckReason {
    /// The encoder's own range.
    Encoder,
    /// The host is behind its encode cadence.
    Cadence,
    /// The session's rate is not negotiable.
    Pinned,
    /// This session's share of a path it is not alone on.
    Governor,
}

/// A client that demuxes host timings, and one that keeps a speed test's
/// filler out of the video's frame numbers, say so in these video
/// capabilities.
pub const VIDEO_CAP_HOST_TIMING: u8 = 0x08;

pub const VIDEO_CAP_PROBE_SEQ: u8 = 0x10;

/// The code a deliberate quit closes the connection with.
pub const QUIT_CLOSE_CODE: u32 = 1;

/// Feedback a game wrote to the host's virtual pad.
#[derive(Clone, Debug, PartialEq, Eq)]
pub enum HidOutput {
    Led { pad: u8, r: u8, g: u8, b: u8 },
    PlayerLeds { pad: u8, bits: u8 },
    /// An adaptive-trigger effect.
    Trigger { pad: u8, which: u8, effect: Vec<u8> },
    /// A pulse of a trackpad's voice coil.
    TrackpadHaptic { pad: u8, side: u8, amplitude: u16, period: u16, count: u16 },
}

/// Input richer than buttons and axes.
#[allow(inconsistent_fields)]
#[derive(Clone, Copy, Debug)]
pub enum RichInput {
    Touchpad { pad: u8, finger: u8, active: bool, x: u16, y: u16 },
    Motion { pad: u8, gyro: [i16; 3], accel: [i16; 3] },
    TouchpadEx {
        pad: u8,
        surface: u8,
        finger: u8,
        touch: bool,
        click: bool,
        x: i16,
        y: i16,
        pressure: u16,
    },
}

/// Static HDR metadata, in the units the bitstream uses.
#[derive(Clone, Copy, Debug)]
pub struct HdrMeta {
    /// Green, blue and red, each an x and a y.
    pub display_primaries: [[u16; 2]; 3],
    pub white_point: [u16; 2],
    pub max_display_mastering_luminance: u32,
    pub min_display_mastering_luminance: u32,
    pub max_cll: u16,
    pub max_fall: u16,
}

/// One access unit's time on the host, from capture to sent.
#[derive(Clone, Copy, Debug, PartialEq, Eq, Structural)]
pub struct HostTiming {
    pub pts_ns: u64,
    pub host_us: u32,
}

} // verus!
