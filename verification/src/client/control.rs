//! The control stream: what goes out on it, and what each reply changes.

use super::clipboard::{ClipEventCore, ClipKind};
use super::speedtest::{ProbeRequest, ProbeResult, ProbeState};
use crate::config::Mode;
use crate::error::PunktfunkStatus;
use crate::quic::AckReason;
use vstd::prelude::*;

verus! {

/// Who draws the pointer.
#[derive(Clone, Copy, Debug, PartialEq, Eq, Structural)]
pub enum CursorRender {
    /// The client: the host leaves it out of the picture and forwards it.
    Client,
    /// The host, into the picture.
    Host,
}

/// A request on its way to the host.
#[derive(Debug, PartialEq, Eq)]
pub enum CtrlRequest {
    Mode(Mode),
    Probe(ProbeRequest),
    Keyframe,
    /// Frames the decoder can no longer refer to, first and last.
    Rfi(u32, u32),
    /// A window's shard loss, in parts per million.
    Loss(u32),
    /// Packets received so far: tells no loss from no packets.
    Delivery(u64),
    /// The rate the bring-up ramp proved.
    LinkRate(u32),
    SetBitrate(u32),
    ClockResync,
    /// Clipboard switch and its flags.
    ClipControl(bool, u8),
    /// Clipboard formats on offer, and the offer's number.
    ClipOffer(u32, Vec<ClipKind>),
    CursorRender(CursorRender),
    /// The display's latch grid in the host's time, as it goes on the wire.
    Phase(Vec<u8>),
}

/// What the control task does with a request.
#[derive(Debug, PartialEq, Eq)]
pub enum CtrlStep {
    /// Write it to the stream.
    Write(CtrlRequest),
    /// Start a clock re-sync.
    Resync,
    /// Nothing: the host could not answer.
    Ignore,
}

/// A reply from the host, decoded.
#[derive(Debug, PartialEq, Eq)]
pub enum CtrlReply {
    /// The mode the session runs in now, and whether that is the one asked
    /// for.
    Reconfigured { accepted: bool, mode: Mode },
    Probe(ProbeResult),
    /// The rate the host encodes at, and the limit it names.
    BitrateChanged(u32, Option<AckReason>),
    /// A clock re-sync came to its end with this offset. `trusted` says that
    /// its round trip was as short as the one at connect.
    Resynced { offset_ns: i64, trusted: bool },
    ClipState { enabled: bool, policy: u8, reason: u8 },
    ClipOffer { seq: u32, kinds: Vec<ClipKind> },
    /// Something a newer host may know.
    Unknown,
}

/// What the control task keeps for the rest of the client.
pub struct Control {
    /// The mode the session runs in.
    pub mode: Mode,
    pub probe: ProbeState,
    /// The newest bitrate acknowledgement nobody has read, and its reason.
    pub bitrate_ack: Option<(u32, Option<AckReason>)>,
    /// Host clock minus client clock.
    pub clock_offset_ns: i64,
    /// How many re-syncs were applied.
    pub clock_gen: u32,
    /// The host answered the clock handshake at connect.
    pub clock_known: bool,
}

/// The count after `n`, starting over past the last.
pub open spec fn next_gen(n: u32) -> u32 {
    if n == u32::MAX {
        0
    } else {
        (n + 1) as u32
    }
}

impl Control {
    /// A session nothing has been heard in yet.
    pub open spec fn fresh(mode: Mode, clock_offset_ns: i64, clock_known: bool) -> Control {
        Control {
            mode,
            probe: ProbeState::idle(),
            bitrate_ack: None,
            clock_offset_ns,
            clock_gen: 0,
            clock_known,
        }
    }

    /// The control task's state at the start of a session.
    pub fn new(mode: Mode, clock_offset_ns: i64, clock_known: bool) -> (c: Control)
        ensures
            c == Control::fresh(mode, clock_offset_ns, clock_known),
            c == (Control {
                mode,
                probe: ProbeState::idle(),
                bitrate_ack: None,
                clock_offset_ns,
                clock_gen: 0,
                clock_known,
            }),
    {
        Control {
            mode,
            probe: ProbeState::idle(),
            bitrate_ack: None,
            clock_offset_ns,
            clock_gen: 0,
            clock_known,
        }
    }

    /// The state after a speed test was asked for, and its request.
    pub open spec fn probing(self, target_kbps: u32, duration_ms: u32) -> (Control, CtrlRequest) {
        (
            Control { probe: ProbeState::started(), ..self },
            CtrlRequest::Probe(ProbeRequest { target_kbps, duration_ms }),
        )
    }

    /// A speed test is asked for: its request, and a clean slate for what it
    /// will measure.
    pub fn request_probe(&mut self, target_kbps: u32, duration_ms: u32) -> (r: CtrlRequest)
        ensures
            (*final(self), r) == old(self).probing(target_kbps, duration_ms),
            r == CtrlRequest::Probe(ProbeRequest { target_kbps, duration_ms }),
            *final(self) == (Control { probe: ProbeState::started(), ..*old(self) }),
    {
        self.probe = ProbeState::started();
        CtrlRequest::Probe(ProbeRequest { target_kbps, duration_ms })
    }

    /// What becomes of an outbound request.
    pub open spec fn step_of(self, req: CtrlRequest) -> CtrlStep {
        if req is ClockResync {
            self.resync_step()
        } else {
            CtrlStep::Write(req)
        }
    }

    /// What becomes of a re-sync.
    pub open spec fn resync_step(self) -> CtrlStep {
        if self.clock_known {
            CtrlStep::Resync
        } else {
            CtrlStep::Ignore
        }
    }

    /// What becomes of an outbound request. A clock re-sync needs a host that
    /// answered the handshake.
    pub fn on_request(&self, req: CtrlRequest) -> (step: CtrlStep)
        ensures
            step == self.step_of(req),
            step == if req is ClockResync {
                if self.clock_known {
                    CtrlStep::Resync
                } else {
                    CtrlStep::Ignore
                }
            } else {
                CtrlStep::Write(req)
            },
    {
        match req {
            CtrlRequest::ClockResync => if self.clock_known {
                CtrlStep::Resync
            } else {
                CtrlStep::Ignore
            },
            req => CtrlStep::Write(req),
        }
    }

    /// The periodic re-sync's turn.
    pub fn on_resync_tick(&self) -> (step: CtrlStep)
        ensures
            step == self.resync_step(),
            step == if self.clock_known {
                CtrlStep::Resync
            } else {
                CtrlStep::Ignore
            },
    {
        if self.clock_known {
            CtrlStep::Resync
        } else {
            CtrlStep::Ignore
        }
    }

    /// The state after a reply. A refused mode switch, an untrusted re-sync
    /// and a clipboard message leave it as it is.
    pub open spec fn replied(self, reply: CtrlReply) -> Control {
        match reply {
            CtrlReply::Reconfigured { accepted, mode } => if accepted {
                Control { mode, ..self }
            } else {
                self
            },
            CtrlReply::Probe(result) => Control { probe: self.probe.reported(result), ..self },
            CtrlReply::BitrateChanged(kbps, why) => Control {
                bitrate_ack: Some((kbps, why)),
                ..self
            },
            CtrlReply::Resynced { offset_ns, trusted } => if trusted {
                Control {
                    clock_offset_ns: offset_ns,
                    clock_gen: next_gen(self.clock_gen),
                    ..self
                }
            } else {
                self
            },
            _ => self,
        }
    }

    /// The clipboard event a reply raises, if any.
    pub open spec fn raises(reply: CtrlReply) -> Option<ClipEventCore> {
        match reply {
            CtrlReply::ClipState { enabled, policy, reason } => Some(
                ClipEventCore::State { enabled, policy, reason },
            ),
            CtrlReply::ClipOffer { seq, kinds } => Some(ClipEventCore::RemoteOffer { seq, kinds }),
            _ => None,
        }
    }

    /// A reply arrived.
    pub fn on_reply(&mut self, reply: CtrlReply) -> (ev: Option<ClipEventCore>)
        ensures
            *final(self) == old(self).replied(reply),
            ev == Control::raises(reply),
    {
        match reply {
            CtrlReply::Reconfigured { accepted, mode } => {
                if accepted {
                    self.mode = mode;
                }
                None
            },
            CtrlReply::Probe(result) => {
                self.probe.on_result(result);
                None
            },
            CtrlReply::BitrateChanged(kbps, why) => {
                self.bitrate_ack = Some((kbps, why));
                None
            },
            CtrlReply::Resynced { offset_ns, trusted } => {
                if trusted {
                    self.clock_offset_ns = offset_ns;
                    self.clock_gen = self.clock_gen.wrapping_add(1);
                }
                None
            },
            CtrlReply::ClipState { enabled, policy, reason } => Some(
                ClipEventCore::State { enabled, policy, reason },
            ),
            CtrlReply::ClipOffer { seq, kinds } => Some(ClipEventCore::RemoteOffer { seq, kinds }),
            CtrlReply::Unknown => None,
        }
    }

    /// The acknowledgement, and the state once it is read.
    pub open spec fn ack_taken(self) -> (Control, Option<(u32, Option<AckReason>)>) {
        (Control { bitrate_ack: None, ..self }, self.bitrate_ack)
    }

    /// Read the bitrate acknowledgement. It is read once.
    pub fn take_ack(&mut self) -> (ack: Option<(u32, Option<AckReason>)>)
        ensures
            (*final(self), ack) == old(self).ack_taken(),
            ack == old(self).bitrate_ack,
            *final(self) == (Control { bitrate_ack: None, ..*old(self) }),
    {
        let ack: Option<(u32, Option<AckReason>)> = self.bitrate_ack;
        self.bitrate_ack = None;
        ack
    }
}

/// How a queue gave nothing.
#[derive(Clone, Copy, Debug, PartialEq, Eq, Structural)]
pub enum Empty {
    /// Nothing came in time.
    Timeout,
    /// Nothing will come again.
    Disconnected,
}

/// What a plane reports when its queue gave nothing.
#[verifier::allow_in_spec]
pub fn plane_error(empty: Empty) -> PunktfunkStatus
    returns
        (match empty {
            Empty::Timeout => PunktfunkStatus::NoFrame,
            Empty::Disconnected => PunktfunkStatus::Closed,
        }),
{
    match empty {
        Empty::Timeout => PunktfunkStatus::NoFrame,
        Empty::Disconnected => PunktfunkStatus::Closed,
    }
}

/// How a bounded queue took a frame.
#[derive(Clone, Copy, Debug, PartialEq, Eq, Structural)]
pub enum Offered {
    Taken,
    Full,
    Gone,
}

/// What the sender of a microphone frame is told.
pub open spec fn mic_outcome(offered: Offered) -> Result<(), PunktfunkStatus> {
    if offered == Offered::Gone {
        Err(PunktfunkStatus::Closed)
    } else {
        Ok(())
    }
}

/// Microphone frames are best effort: one that finds the queue full is shed,
/// and only a session that ended is an error.
pub fn mic_sent(offered: Offered) -> (r: Result<(), PunktfunkStatus>)
    ensures
        r == mic_outcome(offered),
        r is Err <==> offered == Offered::Gone,
        r matches Err(e) ==> e == PunktfunkStatus::Closed,
{
    match offered {
        Offered::Taken => Ok(()),
        Offered::Full => Ok(()),
        Offered::Gone => Err(PunktfunkStatus::Closed),
    }
}

/// The last acknowledgement wins.
pub proof fn law_the_newest_ack_wins(
    c: Control,
    a: u32,
    b: u32,
    first: Option<AckReason>,
    second: Option<AckReason>,
)
    ensures
        c.replied(CtrlReply::BitrateChanged(a, first)).replied(
            CtrlReply::BitrateChanged(b, second),
        ).bitrate_ack == Some((b, second)),
{
}

/// A refused mode switch leaves the session unchanged.
pub proof fn law_a_refused_mode_changes_nothing(c: Control, mode: Mode)
    ensures
        c.replied(CtrlReply::Reconfigured { accepted: false, mode }) == c,
        c.replied(CtrlReply::Reconfigured { accepted: true, mode }).mode == mode,
{
}

/// The offset only moves with the count of re-syncs, so whoever watches the
/// count misses no new offset.
pub proof fn law_a_new_offset_is_counted(c: Control, reply: CtrlReply)
    ensures
        c.replied(reply).clock_offset_ns != c.clock_offset_ns ==> c.replied(reply).clock_gen
            != c.clock_gen,
{
}

/// A session starts in its mode with its offset, with no test, no
/// acknowledgement and no re-sync behind it.
pub proof fn law_a_session_starts_unheard(mode: Mode, offset_ns: i64, known: bool)
    ensures
        ({
            let c = Control::fresh(mode, offset_ns, known);
            &&& c.mode == mode && c.clock_offset_ns == offset_ns && c.clock_known == known
            &&& c.clock_gen == 0 && c.bitrate_ack is None && c.probe == ProbeState::idle()
        }),
{
}

/// A speed test's request carries the rate and the time it was asked for, and
/// starts its measurement over; nothing else moves.
pub proof fn law_a_test_is_asked_as_it_was_called(c: Control, kbps: u32, ms: u32)
    ensures
        ({
            let (after, req) = c.probing(kbps, ms);
            &&& req matches CtrlRequest::Probe(p) && p.target_kbps == kbps && p.duration_ms == ms
            &&& after.probe == ProbeState::started()
            &&& after.mode == c.mode && after.bitrate_ack == c.bitrate_ack && after.clock_offset_ns
                == c.clock_offset_ns && after.clock_gen == c.clock_gen
        }),
{
}

/// Every request is written as it is, but for a re-sync: that starts where the
/// host knows the clock, and is dropped where it does not.
pub proof fn law_requests_are_written_as_they_are(c: Control, req: CtrlRequest)
    ensures
        !(req is ClockResync) ==> c.step_of(req) == CtrlStep::Write(req),
        c.clock_known ==> c.step_of(CtrlRequest::ClockResync) == CtrlStep::Resync
            && c.resync_step() == CtrlStep::Resync,
        !c.clock_known ==> c.step_of(CtrlRequest::ClockResync) == CtrlStep::Ignore
            && c.resync_step() == CtrlStep::Ignore,
{
}

/// Each reply moves its own part: an accepted mode, a test's result, an
/// acknowledgement, and an offset that can be trusted, which is counted.
pub proof fn law_a_reply_moves_its_own_part(c: Control, reply: CtrlReply)
    ensures
        ({
            let r = c.replied(reply);
            &&& !(reply is Reconfigured) ==> r.mode == c.mode
            &&& !(reply is Probe) ==> r.probe == c.probe
            &&& !(reply is BitrateChanged) ==> r.bitrate_ack == c.bitrate_ack
            &&& !(reply is Resynced) ==> r.clock_offset_ns == c.clock_offset_ns && r.clock_gen
                == c.clock_gen
            &&& r.clock_known == c.clock_known
            &&& reply matches CtrlReply::Probe(result) ==> r.probe == c.probe.reported(result)
            &&& reply matches CtrlReply::BitrateChanged(kbps, why) ==> r.bitrate_ack == Some(
                (kbps, why),
            )
            &&& reply matches CtrlReply::Resynced { offset_ns, trusted } ==> {
                &&& trusted ==> r.clock_offset_ns == offset_ns && (r.clock_gen == c.clock_gen + 1 || (
                c.clock_gen == u32::MAX && r.clock_gen == 0))
                &&& !trusted ==> r.clock_offset_ns == c.clock_offset_ns && r.clock_gen == c.clock_gen
            }
        }),
{
}

/// A clipboard message, and nothing else, is raised, with what it says.
pub proof fn law_clipboard_messages_are_raised(reply: CtrlReply)
    ensures
        Control::raises(reply) is Some <==> reply is ClipState || reply is ClipOffer,
        reply matches CtrlReply::ClipState { enabled, policy, reason } ==> (Control::raises(
            reply,
        ) matches Some(ClipEventCore::State { enabled: e, policy: p, reason: r }) && e == enabled && p
            == policy && r == reason),
        reply matches CtrlReply::ClipOffer { seq, kinds } ==> (Control::raises(reply) matches Some(
            ClipEventCore::RemoteOffer { seq: s, kinds: k },
        ) && s == seq && k == kinds),
{
}

/// An acknowledgement is read once.
pub proof fn law_an_acknowledgement_is_read_once(c: Control)
    ensures
        c.ack_taken().1 == c.bitrate_ack,
        c.ack_taken().0.ack_taken().1 is None,
        c.ack_taken().0.mode == c.mode && c.ack_taken().0.probe == c.probe
            && c.ack_taken().0.clock_offset_ns == c.clock_offset_ns && c.ack_taken().0.clock_gen
            == c.clock_gen,
{
}

/// A queue that had nothing in time has no frame, one that ended is closed;
/// a microphone frame fails only on a session that ended.
pub proof fn law_an_empty_queue_says_why(empty: Empty, offered: Offered)
    ensures
        plane_error(Empty::Timeout) == PunktfunkStatus::NoFrame,
        plane_error(Empty::Disconnected) == PunktfunkStatus::Closed,
        offered == Offered::Gone ==> mic_outcome(offered) == Err::<(), PunktfunkStatus>(
            PunktfunkStatus::Closed,
        ),
        offered != Offered::Gone ==> mic_outcome(offered) is Ok,
{
}

} // verus!
