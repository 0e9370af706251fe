//! Routing the host's datagrams to their planes: the sequence gates, and the
//! rebuilding of a lost audio packet from the copy its successor carries.

use super::frame_channel::EncodeLatAcc;
use super::planes::{AudioPacket, RumbleUpdate};
use vstd::prelude::*;

verus! {

/// First bytes of the datagram planes.
pub const AUDIO_MAGIC: u8 = 0xC9;

pub const RUMBLE_MAGIC: u8 = 0xCA;

pub const HIDOUT_MAGIC: u8 = 0xCD;

pub const HDR_META_MAGIC: u8 = 0xCE;

pub const HOST_TIMING_MAGIC: u8 = 0xCF;

pub const CURSOR_STATE_MAGIC: u8 = 0xD0;

pub const PAD_AUDIO_MAGIC: u8 = 0xD1;

pub const AUDIO_RED_MAGIC: u8 = 0xD2;

pub const AUDIO_PCM_MAGIC: u8 = 0xD3;

/// Pads a session has slots for.
pub const MAX_PADS: usize = 16;

/// One audio frame, in nanoseconds.
pub const AUDIO_FRAME_NS: u64 = 5_000_000;

/// Which plane a datagram belongs to.
#[derive(Clone, Copy, Debug, PartialEq, Eq, Structural)]
pub enum Plane {
    Audio,
    /// Audio with a copy of the packet before it.
    AudioRed,
    /// Lossless audio.
    AudioPcm,
    Rumble,
    HidOut,
    PadAudio,
    HdrMeta,
    HostTiming,
    CursorState,
}

/// The plane a datagram's first byte names. An empty one, or a byte a newer
/// host may know, names none.
pub open spec fn plane_named(bytes: Seq<u8>) -> Option<Plane> {
    if bytes.len() == 0 {
        None
    } else if bytes[0] == AUDIO_MAGIC {
        Some(Plane::Audio)
    } else if bytes[0] == AUDIO_RED_MAGIC {
        Some(Plane::AudioRed)
    } else if bytes[0] == AUDIO_PCM_MAGIC {
        Some(Plane::AudioPcm)
    } else if bytes[0] == RUMBLE_MAGIC {
        Some(Plane::Rumble)
    } else if bytes[0] == HIDOUT_MAGIC {
        Some(Plane::HidOut)
    } else if bytes[0] == PAD_AUDIO_MAGIC {
        Some(Plane::PadAudio)
    } else if bytes[0] == HDR_META_MAGIC {
        Some(Plane::HdrMeta)
    } else if bytes[0] == HOST_TIMING_MAGIC {
        Some(Plane::HostTiming)
    } else if bytes[0] == CURSOR_STATE_MAGIC {
        Some(Plane::CursorState)
    } else {
        None
    }
}

pub fn plane_of(bytes: &[u8]) -> (plane: Option<Plane>)
    ensures
        plane == plane_named(bytes@),
{
    if bytes.len() == 0 {
        return None;
    }
    let tag: u8 = bytes[0];
    if tag == AUDIO_MAGIC {
        Some(Plane::Audio)
    } else if tag == AUDIO_RED_MAGIC {
        Some(Plane::AudioRed)
    } else if tag == AUDIO_PCM_MAGIC {
        Some(Plane::AudioPcm)
    } else if tag == RUMBLE_MAGIC {
        Some(Plane::Rumble)
    } else if tag == HIDOUT_MAGIC {
        Some(Plane::HidOut)
    } else if tag == PAD_AUDIO_MAGIC {
        Some(Plane::PadAudio)
    } else if tag == HDR_META_MAGIC {
        Some(Plane::HdrMeta)
    } else if tag == HOST_TIMING_MAGIC {
        Some(Plane::HostTiming)
    } else if tag == CURSOR_STATE_MAGIC {
        Some(Plane::CursorState)
    } else {
        None
    }
}

/// How far `seq` is past `last` on the 32-bit wheel.
#[verifier::allow_in_spec]
pub fn steps_past(last: u32, seq: u32) -> u32
    returns
        (if seq >= last {
            (seq - last) as u32
        } else {
            (seq - last + 0x1_0000_0000) as u32
        }),
{
    if seq >= last {
        seq - last
    } else {
        (seq as u64 + 0x1_0000_0000 - last as u64) as u32
    }
}

/// `seq` is newer than `last`: ahead of it by less than half the wheel.
#[verifier::allow_in_spec]
pub fn newer(last: Option<u32>, seq: u32) -> bool
    returns
        (match last {
            Some(last) => 0 < steps_past(last, seq) < 0x8000_0000,
            None => true,
        }),
{
    match last {
        Some(last) => {
            let ahead: u32 = steps_past(last, seq);
            ahead > 0 && ahead < 0x8000_0000
        },
        None => true,
    }
}

/// The 8-bit wheel's version of [`newer`].
#[verifier::allow_in_spec]
pub fn seq_newer(seq: u8, last: Option<u8>) -> bool
    returns
        (match last {
            Some(last) => if seq >= last {
                0 < seq - last < 128
            } else {
                seq - last + 256 < 128
            },
            None => true,
        }),
{
    match last {
        Some(last) => if seq >= last {
            seq - last > 0 && seq - last < 128
        } else {
            (seq as u16 + 256 - last as u16) < 128
        },
        None => true,
    }
}

/// A decoded audio datagram of any plane.
pub struct AudioIn {
    pub seq: u32,
    pub pts_ns: u64,
    pub data: Vec<u8>,
    /// The copy of the packet before it, where the plane carries one.
    pub prev: Option<Vec<u8>>,
}

/// A rumble envelope's lease.
#[derive(Clone, Copy, Debug, PartialEq, Eq, Structural)]
pub struct RumbleLease {
    pub seq: u8,
    pub ttl_ms: u16,
}

/// A decoded rumble datagram. Without an envelope it is a legacy one.
#[derive(Clone, Copy, Debug, PartialEq, Eq, Structural)]
pub struct RumbleIn {
    pub pad: u16,
    pub low: u16,
    pub high: u16,
    pub left_trigger: u16,
    pub right_trigger: u16,
    pub envelope: Option<RumbleLease>,
}

/// A rumble level as the policy engine takes it, triggers and all.
#[derive(Clone, Copy, Debug, PartialEq, Eq, Structural)]
pub struct RumbleFeed {
    pub pad: u16,
    pub low: u16,
    pub high: u16,
    pub left_trigger: u16,
    pub right_trigger: u16,
    pub ttl_ms: Option<u16>,
}

/// What the router remembers between datagrams.
pub struct Demux {
    /// The newest audio packet that went through, on any plane.
    pub audio_last: Option<u32>,
    /// The newest lease of every pad.
    pub rumble_last: [Option<u8>; 16],
    /// Host encode latency since the last report.
    pub encode_lat: EncodeLatAcc,
}

/// The packet a copy rebuilds: one frame before its carrier.
pub open spec fn rebuilt(a: AudioIn) -> AudioPacket {
    AudioPacket {
        seq: if a.seq == 0 {
            u32::MAX
        } else {
            (a.seq - 1) as u32
        },
        pts_ns: if a.pts_ns >= AUDIO_FRAME_NS {
            (a.pts_ns - AUDIO_FRAME_NS) as u64
        } else {
            0
        },
        data: a.prev->0,
    }
}

/// A copy is worth rebuilding from: one came, something was delivered before,
/// and the packet it copies was not.
pub open spec fn rebuilds(last: Option<u32>, a: AudioIn) -> bool {
    a.prev is Some && last is Some && steps_past(last->0, a.seq) >= 2
}

/// What the audio plane hands on for one datagram, in order.
pub open spec fn audio_out(last: Option<u32>, a: AudioIn) -> Seq<AudioPacket> {
    let own = AudioPacket { seq: a.seq, pts_ns: a.pts_ns, data: a.data };
    if !newer(last, a.seq) {
        Seq::empty()
    } else if rebuilds(last, a) {
        seq![rebuilt(a), own]
    } else {
        seq![own]
    }
}

/// The newest audio packet once one was offered.
pub open spec fn audio_after(last: Option<u32>, a: AudioIn) -> Option<u32> {
    if newer(last, a.seq) {
        Some(a.seq)
    } else {
        last
    }
}

/// How long a rumble datagram's level may last, where it says so.
pub open spec fn ttl_of(r: RumbleIn) -> Option<u16> {
    match r.envelope {
        Some(lease) => Some(lease.ttl_ms),
        None => None,
    }
}

/// The rumble update an envelope makes: the two motors and the lease.
pub open spec fn update_of(r: RumbleIn) -> RumbleUpdate {
    (r.pad, r.low, r.high, ttl_of(r))
}

/// What the policy engine is fed: the triggers too.
pub open spec fn feed_of(r: RumbleIn) -> RumbleFeed {
    RumbleFeed {
        pad: r.pad,
        low: r.low,
        high: r.high,
        left_trigger: r.left_trigger,
        right_trigger: r.right_trigger,
        ttl_ms: ttl_of(r),
    }
}

/// A rumble datagram is acted on: its pad has a slot, and its lease is newer
/// than the pad's last. A legacy one has no lease to compare.
pub open spec fn rumble_fresh(last: Seq<Option<u8>>, r: RumbleIn) -> bool {
    &&& r.pad < MAX_PADS
    &&& (r.envelope is Some ==> seq_newer(r.envelope->0.seq, last[r.pad as int]))
}

/// The pads' newest leases once a datagram was offered.
pub open spec fn rumble_after(last: Seq<Option<u8>>, r: RumbleIn) -> Seq<Option<u8>> {
    if rumble_fresh(last, r) && r.envelope is Some {
        last.update(r.pad as int, Some(r.envelope->0.seq))
    } else {
        last
    }
}

/// What a rumble datagram hands on.
pub open spec fn rumble_out(last: Seq<Option<u8>>, r: RumbleIn) -> Option<
    (RumbleUpdate, RumbleFeed),
> {
    if rumble_fresh(last, r) {
        Some((update_of(r), feed_of(r)))
    } else {
        None
    }
}

/// The encode window after a host timing.
pub open spec fn timed(acc: EncodeLatAcc, encode_us: Option<u32>) -> EncodeLatAcc {
    match encode_us {
        Some(us) => EncodeLatAcc {
            sum_us: crate::math::total(acc.sum_us, us as u64),
            count: crate::math::counted(acc.count),
        },
        None => acc,
    }
}

impl Demux {
    /// Nothing was heard on any plane.
    pub open spec fn unheard(self) -> bool {
        &&& self.audio_last is None
        &&& self.rumble_last@ == Seq::new(16, |i: int| None::<u8>)
        &&& self.encode_lat == EncodeLatAcc::new()
    }

    pub fn new() -> (d: Self)
        ensures
            d.unheard(),
            d.audio_last is None,
            d.rumble_last@ == Seq::new(16, |i: int| None::<u8>),
            d.encode_lat == EncodeLatAcc::new(),
    {
        let d = Demux {
            audio_last: None,
            rumble_last: [None; 16],
            encode_lat: EncodeLatAcc::new(),
        };
        assert(d.rumble_last@ =~= Seq::new(16, |i: int| None::<u8>));
        d
    }

    /// An audio datagram of any plane. A late or duplicate one never reaches
    /// a decoder; a gap of the packet before is filled from the copy.
    pub fn on_audio(&mut self, a: AudioIn) -> (out: Vec<AudioPacket>)
        ensures
            out@ == audio_out(old(self).audio_last, a),
            final(self).audio_last == audio_after(old(self).audio_last, a),
            final(self).audio_last == if newer(old(self).audio_last, a.seq) {
                Some(a.seq)
            } else {
                old(self).audio_last
            },
            final(self).rumble_last@ == old(self).rumble_last@,
            final(self).encode_lat == old(self).encode_lat,
    {
        let mut out: Vec<AudioPacket> = Vec::new();
        if !newer(self.audio_last, a.seq) {
            return out;
        }
        let gap = match self.audio_last {
            Some(last) => steps_past(last, a.seq) >= 2,
            None => false,
        };
        self.audio_last = Some(a.seq);
        let seq: u32 = a.seq;
        let pts_ns: u64 = a.pts_ns;
        if gap {
            if let Some(prev) = a.prev {
                out.push(
                    AudioPacket {
                        seq: if seq == 0 {
                            u32::MAX
                        } else {
                            seq - 1
                        },
                        pts_ns: if pts_ns >= AUDIO_FRAME_NS {
                            pts_ns - AUDIO_FRAME_NS
                        } else {
                            0
                        },
                        data: prev,
                    },
                );
            }
        }
        out.push(AudioPacket { seq, pts_ns, data: a.data });
        out
    }

    /// A rumble datagram, for the embedder's queue and for the policy engine.
    /// A reordered lease must not restart a motor that was stopped.
    pub fn on_rumble(&mut self, r: RumbleIn) -> (out: Option<(RumbleUpdate, RumbleFeed)>)
        ensures
            out == rumble_out(old(self).rumble_last@, r),
            final(self).rumble_last@ == rumble_after(old(self).rumble_last@, r),
            out == if rumble_fresh(old(self).rumble_last@, r) {
                Some((update_of(r), feed_of(r)))
            } else {
                None
            },
            final(self).rumble_last@ == if rumble_fresh(old(self).rumble_last@, r)
                && r.envelope is Some {
                old(self).rumble_last@.update(r.pad as int, Some(r.envelope->0.seq))
            } else {
                old(self).rumble_last@
            },
            final(self).audio_last == old(self).audio_last,
            final(self).encode_lat == old(self).encode_lat,
    {
        let pad: usize = r.pad as usize;
        if pad >= MAX_PADS {
            return None;
        }
        let mut ttl_ms: Option<u16> = None;
        if let Some(lease) = r.envelope {
            if !seq_newer(lease.seq, self.rumble_last[pad]) {
                return None;
            }
            self.rumble_last[pad] = Some(lease.seq);
            ttl_ms = Some(lease.ttl_ms);
        }
        Some(
            (
                (r.pad, r.low, r.high, ttl_ms),
                RumbleFeed {
                    pad: r.pad,
                    low: r.low,
                    high: r.high,
                    left_trigger: r.left_trigger,
                    right_trigger: r.right_trigger,
                    ttl_ms,
                },
            ),
        )
    }

    /// A host timing with its encode stage, where the host sent one.
    pub fn on_host_timing(&mut self, encode_us: Option<u32>)
        ensures
            final(self).encode_lat == timed(old(self).encode_lat, encode_us),
            final(self).encode_lat == match encode_us {
                Some(us) => EncodeLatAcc {
                    sum_us: crate::math::total(old(self).encode_lat.sum_us, us as u64),
                    count: crate::math::counted(old(self).encode_lat.count),
                },
                None => old(self).encode_lat,
            },
            final(self).audio_last == old(self).audio_last,
            final(self).rumble_last@ == old(self).rumble_last@,
    {
        if let Some(us) = encode_us {
            self.encode_lat.note(us);
        }
    }
}

/// Audio reaches the decoder in order: every packet handed on is newer than
/// everything before it, a rebuilt one included.
pub proof fn law_audio_stays_in_order(last: Option<u32>, a: AudioIn)
    ensures
        forall|i: int|
            0 <= i < audio_out(last, a).len() ==> newer(last, #[trigger] audio_out(last, a)[i].seq),
        audio_out(last, a).len() == 2 ==> newer(
            Some(audio_out(last, a)[0].seq),
            audio_out(last, a)[1].seq,
        ),
        newer(last, a.seq) ==> audio_out(last, a).last().seq == a.seq,
{
}

/// A repeat of the lease that was last acted on is not acted on again.
pub proof fn law_a_rumble_lease_acts_once(last: Seq<Option<u8>>, r: RumbleIn)
    requires
        last.len() == MAX_PADS,
        r.envelope is Some,
        rumble_fresh(last, r),
    ensures
        !rumble_fresh(last.update(r.pad as int, Some(r.envelope->0.seq)), r),
{
}

/// Tags and planes are one to one. Each tag names its own plane and no other
/// byte names it, what follows the first byte says nothing, and a datagram
/// without one belongs nowhere.
pub proof fn law_each_tag_names_its_own_plane(bytes: Seq<u8>, other: Seq<u8>)
    ensures
        bytes.len() == 0 ==> plane_named(bytes) is None,
        bytes.len() > 0 ==> {
            &&& plane_named(bytes) == Some(Plane::Audio) <==> bytes[0] == 0xc9
            &&& plane_named(bytes) == Some(Plane::AudioRed) <==> bytes[0] == 0xd2
            &&& plane_named(bytes) == Some(Plane::AudioPcm) <==> bytes[0] == 0xd3
            &&& plane_named(bytes) == Some(Plane::Rumble) <==> bytes[0] == 0xca
            &&& plane_named(bytes) == Some(Plane::HidOut) <==> bytes[0] == 0xcd
            &&& plane_named(bytes) == Some(Plane::PadAudio) <==> bytes[0] == 0xd1
            &&& plane_named(bytes) == Some(Plane::HdrMeta) <==> bytes[0] == 0xce
            &&& plane_named(bytes) == Some(Plane::HostTiming) <==> bytes[0] == 0xcf
            &&& plane_named(bytes) == Some(Plane::CursorState) <==> bytes[0] == 0xd0
        },
        bytes.len() > 0 && other.len() > 0 && bytes[0] == other[0] ==> plane_named(bytes)
            == plane_named(other),
        plane_named(bytes) is Some && plane_named(bytes) == plane_named(other) ==> bytes[0]
            == other[0],
{
}

/// The step from one number to another leads there around the wheel.
pub proof fn law_steps_lead_around_the_wheel(last: u32, seq: u32)
    ensures
        (last + steps_past(last, seq)) % 0x1_0000_0000 == seq,
{
}

/// Of two numbers less than half the wheel apart one is newer, never both,
/// and none is newer than itself; the next one always is. Before the first
/// everything is.
pub proof fn law_newer_goes_one_way(a: u32, b: u32)
    ensures
        newer(None, a),
        !newer(Some(a), a),
        newer(Some(a), b) ==> !newer(Some(b), a),
        a != b && (a - b) % 0x1_0000_0000 != 0x8000_0000 ==> newer(Some(a), b) || newer(Some(b), a),
        a < u32::MAX ==> newer(Some(a), (a + 1) as u32),
        newer(Some(u32::MAX), 0),
{
}

/// The same of the small wheel of rumble leases.
pub proof fn law_a_newer_lease_goes_one_way(a: u8, b: u8)
    ensures
        seq_newer(a, None),
        !seq_newer(a, Some(a)),
        seq_newer(a, Some(b)) ==> !seq_newer(b, Some(a)),
        a != b && (a - b) % 256 != 128 ==> seq_newer(a, Some(b)) || seq_newer(b, Some(a)),
        a < u8::MAX ==> seq_newer((a + 1) as u8, Some(a)),
        seq_newer(0, Some(u8::MAX)),
{
}

/// A packet that is newer than what was delivered goes through as it came; a
/// copy goes out ahead of it exactly where the packet it copies is missing,
/// with the number before, the time of one frame before, and the copy's
/// bytes. One that is not newer gives nothing.
pub proof fn law_audio_is_handed_on_as_it_came(last: Option<u32>, a: AudioIn)
    ensures
        ({
            let out = audio_out(last, a);
            &&& out.len() > 0 <==> newer(last, a.seq)
            &&& out.len() <= 2
            &&& out.len() > 0 ==> out.last().seq == a.seq && out.last().pts_ns == a.pts_ns
                && out.last().data == a.data
            &&& out.len() == 2 <==> newer(last, a.seq) && a.prev is Some && last is Some && (last->0
                + 1) % 0x1_0000_0000 != a.seq
            &&& out.len() == 2 ==> {
                &&& (out[0].seq + 1) % 0x1_0000_0000 == a.seq
                &&& a.pts_ns >= 5_000_000 ==> out[0].pts_ns + 5_000_000 == a.pts_ns
                &&& a.pts_ns < 5_000_000 ==> out[0].pts_ns == 0
                &&& out[0].data == a.prev->0
                &&& last != Some(out[0].seq)
            }
        }),
{
}

/// What was delivered is remembered, and offering it again gives nothing and
/// forgets nothing.
pub proof fn law_audio_is_delivered_once(last: Option<u32>, a: AudioIn, b: AudioIn)
    ensures
        newer(last, a.seq) ==> audio_after(last, a) == Some(a.seq),
        !newer(last, a.seq) ==> audio_after(last, a) == last,
        b.seq == a.seq && newer(last, a.seq) ==> audio_out(audio_after(last, a), b).len() == 0,
{
}

/// A rumble datagram that is acted on reaches both consumers with the levels
/// it came with. One for a pad without a slot reaches none; a legacy one for a
/// pad with a slot always does, and changes no lease.
pub proof fn law_a_rumble_keeps_its_levels(last: Seq<Option<u8>>, r: RumbleIn)
    requires
        last.len() == MAX_PADS,
    ensures
        rumble_out(last, r) matches Some((u, f)) ==> {
            &&& u.0 == r.pad && f.pad == r.pad
            &&& u.1 == r.low && f.low == r.low
            &&& u.2 == r.high && f.high == r.high
            &&& u.3 == f.ttl_ms
            &&& f.left_trigger == r.left_trigger && f.right_trigger == r.right_trigger
            &&& (r.envelope matches Some(lease) ==> f.ttl_ms == Some(lease.ttl_ms))
            &&& (r.envelope is None ==> f.ttl_ms is None)
        },
        r.pad >= 16 ==> rumble_out(last, r) is None,
        r.pad < 16 && r.envelope is None ==> rumble_out(last, r) is Some && rumble_after(last, r)
            == last,
        r.pad < 16 && r.envelope is Some ==> (rumble_out(last, r) is Some <==> seq_newer(
            r.envelope->0.seq,
            last[r.pad as int],
        )),
{
}

/// A lease moves its own pad's mark alone, and only forward: a repeat of it is
/// not acted on.
pub proof fn law_a_lease_marks_its_own_pad(last: Seq<Option<u8>>, r: RumbleIn, pad: int)
    requires
        last.len() == MAX_PADS,
        0 <= pad < MAX_PADS,
    ensures
        rumble_after(last, r).len() == MAX_PADS,
        pad != r.pad ==> rumble_after(last, r)[pad] == last[pad],
        rumble_out(last, r) is Some && r.envelope is Some ==> rumble_after(last, r)[r.pad as int]
            == Some(r.envelope->0.seq) && rumble_out(rumble_after(last, r), r) is None,
        rumble_out(last, r) is None ==> rumble_after(last, r) == last,
{
}

/// A timing with an encode stage adds its time and one to the window; one
/// without adds nothing.
pub proof fn law_a_timing_counts_once(acc: EncodeLatAcc, encode_us: Option<u32>)
    requires
        acc.count < u32::MAX,
        acc.sum_us <= u64::MAX - u32::MAX,
    ensures
        encode_us matches Some(us) ==> timed(acc, encode_us).sum_us == acc.sum_us + us && timed(
            acc,
            encode_us,
        ).count == acc.count + 1,
        encode_us is None ==> timed(acc, encode_us) == acc,
{
}

/// Before anything is heard every packet and every lease is new, on each of
/// the sixteen pads, and no timing counts.
pub proof fn law_everything_is_new_at_first(d: Demux, seq: u32, lease: u8, pad: int)
    requires
        d.unheard(),
        0 <= pad < 16,
    ensures
        newer(d.audio_last, seq),
        d.rumble_last@.len() == 16 && seq_newer(lease, d.rumble_last@[pad]),
        d.encode_lat.sum_us == 0 && d.encode_lat.count == 0,
{
}

} // verus!
