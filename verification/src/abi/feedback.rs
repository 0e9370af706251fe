//! Feedback records: pad effects, HDR metadata and host timings.

use crate::quic::{HdrMeta, HidOutput, HostTiming};
use crate::text::{count_in, parse_count, trimmed, trimmed_text};
use vstd::prelude::*;

verus! {

/// What a [`PunktfunkHidOutput`] is about.
pub const PUNKTFUNK_HIDOUT_LED: u8 = 1;

pub const PUNKTFUNK_HIDOUT_PLAYER_LEDS: u8 = 2;

pub const PUNKTFUNK_HIDOUT_TRIGGER: u8 = 3;

pub const PUNKTFUNK_HIDOUT_TRACKPAD_HAPTIC: u8 = 4;

/// Most effect bytes a record holds.
pub const PUNKTFUNK_HID_EFFECT_MAX: u8 = 11;

/// Pad feedback, flat. `kind` says which fields count; the rest are zero.
#[derive(Clone, Copy, Debug)]
pub struct PunktfunkHidOutput {
    pub kind: u8,
    pub pad: u8,
    pub r: u8,
    pub g: u8,
    pub b: u8,
    pub player_bits: u8,
    /// A trigger's side, or a trackpad's.
    pub which: u8,
    /// How many bytes of `effect` count.
    pub effect_len: u8,
    pub effect: [u8; 11],
}

/// The bytes that fit, and zeros behind them.
pub open spec fn effect_block(bytes: Seq<u8>) -> Seq<u8> {
    Seq::new(
        11,
        |i: int|
            if i < bytes.len() {
                bytes[i]
            } else {
                0u8
            },
    )
}

/// How many of the bytes fit.
pub open spec fn effect_count(bytes: Seq<u8>) -> u8 {
    if bytes.len() < 11 {
        bytes.len() as u8
    } else {
        11
    }
}

/// The two bytes of a number, low byte first.
pub open spec fn le_bytes(n: u16) -> Seq<u8> {
    seq![(n % 256) as u8, (n / 256) as u8]
}

impl PunktfunkHidOutput {
    /// The record describes `h`.
    pub open spec fn describes(self, h: HidOutput) -> bool {
        match h {
            HidOutput::Led { pad, r, g, b } => {
                &&& self.kind == PUNKTFUNK_HIDOUT_LED
                &&& self.pad == pad
                &&& self.r == r
                &&& self.g == g
                &&& self.b == b
                &&& self.player_bits == 0
                &&& self.which == 0
                &&& self.effect_len == 0
                &&& self.effect@ == effect_block(Seq::empty())
            },
            HidOutput::PlayerLeds { pad, bits } => {
                &&& self.kind == PUNKTFUNK_HIDOUT_PLAYER_LEDS
                &&& self.pad == pad
                &&& self.r == 0
                &&& self.g == 0
                &&& self.b == 0
                &&& self.player_bits == bits
                &&& self.which == 0
                &&& self.effect_len == 0
                &&& self.effect@ == effect_block(Seq::empty())
            },
            HidOutput::Trigger { pad, which, effect } => {
                &&& self.kind == PUNKTFUNK_HIDOUT_TRIGGER
                &&& self.pad == pad
                &&& self.r == 0
                &&& self.g == 0
                &&& self.b == 0
                &&& self.player_bits == 0
                &&& self.which == which
                &&& self.effect_len == effect_count(effect@)
                &&& self.effect@ == effect_block(effect@)
            },
            HidOutput::TrackpadHaptic { pad, side, amplitude, period, count } => {
                &&& self.kind == PUNKTFUNK_HIDOUT_TRACKPAD_HAPTIC
                &&& self.pad == pad
                &&& self.r == 0
                &&& self.g == 0
                &&& self.b == 0
                &&& self.player_bits == 0
                &&& self.which == side
                &&& self.effect_len == 6
                &&& self.effect@ == effect_block(
                    le_bytes(amplitude) + le_bytes(period) + le_bytes(count),
                )
            },
        }
    }

    pub fn from_hid(h: &HidOutput) -> (out: PunktfunkHidOutput)
        ensures
            out.describes(*h),
    {
        let mut out = PunktfunkHidOutput {
            kind: 0,
            pad: 0,
            r: 0,
            g: 0,
            b: 0,
            player_bits: 0,
            which: 0,
            effect_len: 0,
            effect: [0u8; 11],
        };
        assert(out.effect@ =~= effect_block(Seq::empty()));
        match h {
            HidOutput::Led { pad, r, g, b } => {
                out.kind = PUNKTFUNK_HIDOUT_LED;
                out.pad = *pad;
                out.r = *r;
                out.g = *g;
                out.b = *b;
            },
            HidOutput::PlayerLeds { pad, bits } => {
                out.kind = PUNKTFUNK_HIDOUT_PLAYER_LEDS;
                out.pad = *pad;
                out.player_bits = *bits;
            },
            HidOutput::Trigger { pad, which, effect } => {
                out.kind = PUNKTFUNK_HIDOUT_TRIGGER;
                out.pad = *pad;
                out.which = *which;
                let n: usize = if effect.len() < 11 {
                    effect.len()
                } else {
                    11
                };
                let mut block: [u8; 11] = [0u8; 11];
                let mut i: usize = 0;
                while i < n
                    invariant
                        n <= 11,
                        n <= effect@.len(),
                        i <= n,
                        forall|j: int| 0 <= j < i ==> block@[j] == effect@[j],
                        forall|j: int| i <= j < 11 ==> block@[j] == 0,
                    decreases n - i,
                {
                    block[i] = effect[i];
                    i = i + 1;
                }
                out.effect = block;
                out.effect_len = n as u8;
                assert(out.effect@ =~= effect_block(effect@));
            },
            HidOutput::TrackpadHaptic { pad, side, amplitude, period, count } => {
                out.kind = PUNKTFUNK_HIDOUT_TRACKPAD_HAPTIC;
                out.pad = *pad;
                out.which = *side;
                out.effect = [
                    (*amplitude % 256) as u8,
                    (*amplitude / 256) as u8,
                    (*period % 256) as u8,
                    (*period / 256) as u8,
                    (*count % 256) as u8,
                    (*count / 256) as u8,
                    0,
                    0,
                    0,
                    0,
                    0,
                ];
                out.effect_len = 6;
                assert(out.effect@ =~= effect_block(
                    le_bytes(*amplitude) + le_bytes(*period) + le_bytes(*count),
                ));
            },
        }
        out
    }
}

/// A trackpad pulse can be read back from its packed bytes.
pub proof fn law_a_packed_pulse_reads_back(
    out: PunktfunkHidOutput,
    pad: u8,
    side: u8,
    amplitude: u16,
    period: u16,
    count: u16,
)
    requires
        out.describes(HidOutput::TrackpadHaptic { pad, side, amplitude, period, count }),
    ensures
        out.effect@[0] + 256 * out.effect@[1] == amplitude,
        out.effect@[2] + 256 * out.effect@[3] == period,
        out.effect@[4] + 256 * out.effect@[5] == count,
{
    let packed = le_bytes(amplitude) + le_bytes(period) + le_bytes(count);
    assert(packed[0] == le_bytes(amplitude)[0] && packed[1] == le_bytes(amplitude)[1]);
    assert(packed[2] == le_bytes(period)[0] && packed[3] == le_bytes(period)[1]);
    assert(packed[4] == le_bytes(count)[0] && packed[5] == le_bytes(count)[1]);
}

/// Two different events never share a record, as long as a trigger's effect
/// fits it.
pub proof fn law_a_record_names_one_event(out: PunktfunkHidOutput, a: HidOutput, b: HidOutput)
    requires
        out.describes(a),
        out.describes(b),
        a matches HidOutput::Trigger { pad: p, which: w, effect: e } ==> e@.len()
            <= PUNKTFUNK_HID_EFFECT_MAX,
        b matches HidOutput::Trigger { pad: p, which: w, effect: e } ==> e@.len()
            <= PUNKTFUNK_HID_EFFECT_MAX,
    ensures
        (a is Led <==> b is Led) && (a is PlayerLeds <==> b is PlayerLeds) && (a is Trigger <==> b
            is Trigger),
        a is Led || a is PlayerLeds || a is TrackpadHaptic ==> a == b,
        a matches HidOutput::Trigger { pad: p, which: w, effect: e } ==> (b
            matches HidOutput::Trigger { pad: q, which: v, effect: f } ==> p == q && w == v && e@
            == f@),
{
    match (a, b) {
        (
            HidOutput::Trigger { pad: p, which: w, effect: e },
            HidOutput::Trigger { pad: q, which: v, effect: f },
        ) => {
            assert forall|i: int| 0 <= i < e@.len() implies e@[i] == f@[i] by {
                assert(effect_block(e@)[i] == effect_block(f@)[i]);
            }
            assert(e@ =~= f@);
        },
        (
            HidOutput::TrackpadHaptic { pad: p, side: s, amplitude: a1, period: a2, count: a3 },
            HidOutput::TrackpadHaptic { pad: q, side: t, amplitude: b1, period: b2, count: b3 },
        ) => {
            law_a_packed_pulse_reads_back(out, p, s, a1, a2, a3);
            law_a_packed_pulse_reads_back(out, q, t, b1, b2, b3);
        },
        _ => {},
    }
}

/// Static HDR metadata, the primaries split by coordinate.
#[derive(Clone, Copy, Debug)]
pub struct PunktfunkHdrMeta {
    /// Green, blue, red.
    pub display_primaries_x: [u16; 3],
    pub display_primaries_y: [u16; 3],
    pub white_point_x: u16,
    pub white_point_y: u16,
    pub max_display_mastering_luminance: u32,
    pub min_display_mastering_luminance: u32,
    pub max_cll: u16,
    pub max_fall: u16,
}

impl PunktfunkHdrMeta {
    /// The record carries the metadata.
    pub open spec fn carries(self, m: HdrMeta) -> bool {
        &&& forall|i: int|
            0 <= i < 3 ==> #[trigger] self.display_primaries_x@[i] == m.display_primaries@[i]@[0]
        &&& forall|i: int|
            0 <= i < 3 ==> #[trigger] self.display_primaries_y@[i] == m.display_primaries@[i]@[1]
        &&& self.white_point_x == m.white_point@[0]
        &&& self.white_point_y == m.white_point@[1]
        &&& self.max_display_mastering_luminance == m.max_display_mastering_luminance
        &&& self.min_display_mastering_luminance == m.min_display_mastering_luminance
        &&& self.max_cll == m.max_cll
        &&& self.max_fall == m.max_fall
    }

    pub fn from_meta(m: &HdrMeta) -> (out: PunktfunkHdrMeta)
        ensures
            out.carries(*m),
            forall|i: int|
                0 <= i < 3 ==> #[trigger] out.display_primaries_x@[i]
                    == m.display_primaries@[i]@[0],
            forall|i: int|
                0 <= i < 3 ==> #[trigger] out.display_primaries_y@[i]
                    == m.display_primaries@[i]@[1],
            out.white_point_x == m.white_point@[0],
            out.white_point_y == m.white_point@[1],
            out.max_display_mastering_luminance == m.max_display_mastering_luminance,
            out.min_display_mastering_luminance == m.min_display_mastering_luminance,
            out.max_cll == m.max_cll,
            out.max_fall == m.max_fall,
    {
        PunktfunkHdrMeta {
            display_primaries_x: [
                m.display_primaries[0][0],
                m.display_primaries[1][0],
                m.display_primaries[2][0],
            ],
            display_primaries_y: [
                m.display_primaries[0][1],
                m.display_primaries[1][1],
                m.display_primaries[2][1],
            ],
            white_point_x: m.white_point[0],
            white_point_y: m.white_point[1],
            max_display_mastering_luminance: m.max_display_mastering_luminance,
            min_display_mastering_luminance: m.min_display_mastering_luminance,
            max_cll: m.max_cll,
            max_fall: m.max_fall,
        }
    }
}

/// Light level of a display volume's floor, in ten-thousandths of a nit.
pub const HDR_FLOOR: u32 = 50;

/// The volume of a display that peaks at `nits`: wide-gamut primaries, the
/// standard white, a dark floor.
pub open spec fn peaks_at(m: HdrMeta, nits: int) -> bool {
    &&& m.display_primaries@[0]@ == seq![8500u16, 39850]
    &&& m.display_primaries@[1]@ == seq![6550u16, 2300]
    &&& m.display_primaries@[2]@ == seq![35400u16, 14600]
    &&& m.white_point@ == seq![15635u16, 16450]
    &&& m.max_display_mastering_luminance == if nits * 10_000 > u32::MAX {
        u32::MAX as int
    } else {
        nits * 10_000
    }
    &&& m.min_display_mastering_luminance == HDR_FLOOR
    &&& m.max_cll == 0
    &&& m.max_fall == 0
}

/// `m` is the volume a peak of `nits` describes, if any.
pub open spec fn volume(nits: int, m: Option<HdrMeta>) -> bool {
    &&& m is None <==> nits == 0
    &&& m matches Some(m) ==> peaks_at(m, nits)
}

/// `m` is the volume an operator's text describes, if any.
pub open spec fn volume_of_text(text: Seq<char>, m: Option<HdrMeta>) -> bool {
    match count_in(trimmed_text(text)) {
        Some(nits) => volume(nits as int, m),
        None => m is None,
    }
}

/// The volume of a display that peaks at `nits`. Zero nits describe no
/// display.
pub fn hdr_from_peak(nits: u32) -> (m: Option<HdrMeta>)
    ensures
        volume(nits as int, m),
        m is None <==> nits == 0,
        m matches Some(m) ==> peaks_at(m, nits as int),
{
    if nits == 0 {
        return None;
    }
    let green: [u16; 2] = [8500, 39850];
    let blue: [u16; 2] = [6550, 2300];
    let red: [u16; 2] = [35400, 14600];
    let white: [u16; 2] = [15635, 16450];
    assert(green@ =~= seq![8500u16, 39850]);
    assert(blue@ =~= seq![6550u16, 2300]);
    assert(red@ =~= seq![35400u16, 14600]);
    assert(white@ =~= seq![15635u16, 16450]);
    Some(
        HdrMeta {
            display_primaries: [green, blue, red],
            white_point: white,
            max_display_mastering_luminance: if nits > 429_496 {
                u32::MAX
            } else {
                nits * 10_000
            },
            min_display_mastering_luminance: HDR_FLOOR,
            max_cll: 0,
            max_fall: 0,
        },
    )
}

/// One access unit's time on the host.
#[derive(Clone, Copy, Debug, PartialEq, Eq, Structural)]
pub struct PunktfunkHostTiming {
    pub pts_ns: u64,
    pub host_us: u32,
}

impl PunktfunkHostTiming {
    /// The record of a timing.
    pub open spec fn told(t: HostTiming) -> PunktfunkHostTiming {
        PunktfunkHostTiming { pts_ns: t.pts_ns, host_us: t.host_us }
    }

    pub fn of(t: &HostTiming) -> (out: PunktfunkHostTiming)
        ensures
            out == PunktfunkHostTiming::told(*t),
            out.pts_ns == t.pts_ns,
            out.host_us == t.host_us,
    {
        PunktfunkHostTiming { pts_ns: t.pts_ns, host_us: t.host_us }
    }
}

/// The volume of a display whose peak an operator wrote down, blanks around
/// it or not. A text that is no number, or zero, describes no display.
pub fn hdr_from_peak_text(text: &str) -> (m: Option<HdrMeta>)
    ensures
        volume_of_text(text@, m),
        match count_in(trimmed_text(text@)) {
            Some(nits) => {
                &&& m is None <==> nits == 0
                &&& m matches Some(m) ==> peaks_at(m, nits as int)
            },
            None => m is None,
        },
{
    match parse_count(trimmed(text)) {
        Some(nits) => hdr_from_peak(nits),
        None => None,
    }
}

/// A record says its kind and pad, and each field it fills is the event's own:
/// the colours in their order, the player's bits, a trigger's side and as much
/// of its effect as fits, a pulse's side and its six bytes. The rest is nought.
pub proof fn law_feedback_keeps_its_fields(out: PunktfunkHidOutput, h: HidOutput, i: int)
    requires
        out.describes(h),
        0 <= i < 11,
    ensures
        match h {
            HidOutput::Led { pad, r, g, b } => out.kind == 1 && out.pad == pad && out.r == r && out.g
                == g && out.b == b,
            HidOutput::PlayerLeds { pad, bits } => out.kind == 2 && out.pad == pad
                && out.player_bits == bits,
            HidOutput::Trigger { pad, which, effect } => out.kind == 3 && out.pad == pad
                && out.which == which && (effect@.len() <= 11 ==> out.effect_len == effect@.len())
                && (effect@.len() > 11 ==> out.effect_len == 11) && (i < effect@.len()
                ==> out.effect@[i] == effect@[i]) && (i >= effect@.len() ==> out.effect@[i] == 0),
            HidOutput::TrackpadHaptic { pad, side, amplitude, period, count } => out.kind == 4
                && out.pad == pad && out.which == side && out.effect_len == 6 && (i >= 6
                ==> out.effect@[i] == 0),
        },
        !(h is Led) ==> out.r == 0 && out.g == 0 && out.b == 0,
        !(h is PlayerLeds) ==> out.player_bits == 0,
        h is Led || h is PlayerLeds ==> out.which == 0 && out.effect_len == 0 && out.effect@[i] == 0,
{
}

/// Metadata is split by coordinate and otherwise kept: green, blue and red in
/// their places, the largest light level apart from the average.
pub proof fn law_metadata_is_split_by_coordinate(out: PunktfunkHdrMeta, m: HdrMeta, i: int)
    requires
        out.carries(m),
        0 <= i < 3,
    ensures
        out.display_primaries_x@[i] == m.display_primaries@[i]@[0],
        out.display_primaries_y@[i] == m.display_primaries@[i]@[1],
        out.white_point_x == m.white_point@[0] && out.white_point_y == m.white_point@[1],
        out.max_display_mastering_luminance == m.max_display_mastering_luminance,
        out.min_display_mastering_luminance == m.min_display_mastering_luminance,
        out.max_cll == m.max_cll && out.max_fall == m.max_fall,
{
}

/// A peak describes a display unless it is nought: its light in
/// ten-thousandths of a nit, as far as they count, over a floor of two
/// hundredths of one, in the wide gamut's primaries.
pub proof fn law_a_peak_describes_a_display(nits: nat, m: Option<HdrMeta>, text: Seq<char>)
    ensures
        volume(nits as int, m) ==> (m is Some <==> nits > 0),
        volume(nits as int, m) ==> (m matches Some(v) ==> {
            &&& nits <= 429_496 ==> v.max_display_mastering_luminance == nits * 10_000
            &&& nits > 429_496 ==> v.max_display_mastering_luminance == u32::MAX
            &&& v.min_display_mastering_luminance == 50 && v.max_cll == 0 && v.max_fall == 0
            &&& v.display_primaries@[0]@[0] == 8_500 && v.display_primaries@[0]@[1] == 39_850
            &&& v.display_primaries@[1]@[0] == 6_550 && v.display_primaries@[1]@[1] == 2_300
            &&& v.display_primaries@[2]@[0] == 35_400 && v.display_primaries@[2]@[1] == 14_600
            &&& v.white_point@[0] == 15_635 && v.white_point@[1] == 16_450
        }),
        volume_of_text(text, m) && count_in(trimmed_text(text)) is None ==> m is None,
        volume_of_text(text, m) && count_in(trimmed_text(text)) == Some(nits) ==> volume(
            nits as int,
            m,
        ),
{
}

/// A timing keeps its stamp and its time.
pub proof fn law_a_timing_is_told_as_it_is(t: HostTiming)
    ensures
        PunktfunkHostTiming::told(t).pts_ns == t.pts_ns,
        PunktfunkHostTiming::told(t).host_us == t.host_us,
{
}

} // verus!
