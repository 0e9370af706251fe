//! Session configuration and counters as flat records.

use crate::config::{Config, FecConfig, FecScheme, ProtocolPhase, Role};
use crate::error::PunktfunkStatus;
use crate::session::Frame;
use crate::stats::Stats;
use vstd::prelude::*;

verus! {

/// Session configuration, every field as wide as the caller sends it.
#[derive(Clone, Copy, Debug)]
pub struct PunktfunkConfig {
    /// The caller's idea of this record's size.
    pub struct_size: u32,
    /// 0 is the host, 1 the client.
    pub role: u32,
    pub phase: u32,
    pub fec_scheme: u32,
    pub fec_percent: u32,
    pub max_data_per_block: u32,
    pub shard_payload: u32,
    /// Anything but zero encrypts.
    pub encrypt: u32,
    pub key: [u8; 16],
    pub salt: [u8; 4],
    pub loopback_drop_period: u32,
    pub max_frame_bytes: u64,
}

/// The largest frame bound this machine can hold: a wider one is cut to the
/// machine's word.
pub open spec fn frame_bound(bytes: u64) -> usize {
    #[verifier::truncate] (bytes as usize)
}

impl PunktfunkConfig {
    /// Every field holds a value its narrower form can: out of range is an
    /// error, never cut to something that looks right.
    pub open spec fn in_range(self) -> bool {
        &&& self.role <= 1
        &&& 1 <= self.phase <= 2
        &&& self.fec_scheme <= 1
        &&& self.fec_percent <= u8::MAX
        &&& self.max_data_per_block <= u16::MAX
    }

    /// The configuration the record spells.
    pub open spec fn spelled(self) -> Config {
        Config {
            role: if self.role == 0 {
                Role::Host
            } else {
                Role::Client
            },
            phase: if self.phase == 1 {
                ProtocolPhase::P1GameStream
            } else {
                ProtocolPhase::P2Punktfunk
            },
            fec: FecConfig {
                scheme: if self.fec_scheme == 0 {
                    FecScheme::Gf8
                } else {
                    FecScheme::Gf16
                },
                fec_percent: self.fec_percent as u8,
                max_data_per_block: self.max_data_per_block as u16,
            },
            shard_payload: self.shard_payload as usize,
            max_frame_bytes: frame_bound(self.max_frame_bytes),
            encrypt: self.encrypt != 0,
            key: self.key,
            salt: self.salt,
            loopback_drop_period: self.loopback_drop_period,
        }
    }

    /// The configuration the record spells, where it spells one.
    pub open spec fn spelling(self) -> Result<Config, PunktfunkStatus> {
        if self.in_range() {
            Ok(self.spelled())
        } else {
            Err(PunktfunkStatus::InvalidArg)
        }
    }

    /// The configuration the record spells, before the session's own
    /// validation has seen it.
    pub fn spell(self) -> (r: Result<Config, PunktfunkStatus>)
        ensures
            r == self.spelling(),
            r == if self.in_range() {
                Ok::<Config, PunktfunkStatus>(self.spelled())
            } else {
                Err(PunktfunkStatus::InvalidArg)
            },
    {
        let role = if self.role == 0 {
            Role::Host
        } else if self.role == 1 {
            Role::Client
        } else {
            return Err(PunktfunkStatus::InvalidArg);
        };
        let phase = if self.phase == 1 {
            ProtocolPhase::P1GameStream
        } else if self.phase == 2 {
            ProtocolPhase::P2Punktfunk
        } else {
            return Err(PunktfunkStatus::InvalidArg);
        };
        if self.fec_scheme > 255 {
            return Err(PunktfunkStatus::InvalidArg);
        }
        let scheme = match FecScheme::from_u8(self.fec_scheme as u8) {
            Some(scheme) => scheme,
            None => return Err(PunktfunkStatus::InvalidArg),
        };
        if self.fec_percent > 255 || self.max_data_per_block > 65535 {
            return Err(PunktfunkStatus::InvalidArg);
        }
        Ok(
            Config {
                role,
                phase,
                fec: FecConfig {
                    scheme,
                    fec_percent: self.fec_percent as u8,
                    max_data_per_block: self.max_data_per_block as u16,
                },
                shard_payload: self.shard_payload as usize,
                max_frame_bytes: #[verifier::truncate] (self.max_frame_bytes as usize),
                encrypt: self.encrypt != 0,
                key: self.key,
                salt: self.salt,
                loopback_drop_period: self.loopback_drop_period,
            },
        )
    }

    /// The configuration to run with, where `validated` is what the session
    /// says of [`spell`](Self::spell)'s. A number out of range is refused
    /// whatever it says, and its error is handed on.
    pub open spec fn configured(self, validated: Result<(), PunktfunkStatus>) -> Result<
        Config,
        PunktfunkStatus,
    > {
        if !self.in_range() {
            Err(PunktfunkStatus::InvalidArg)
        } else {
            match validated {
                Ok(_) => Ok(self.spelled()),
                Err(e) => Err(e),
            }
        }
    }

    pub fn to_config(self, validated: Result<(), PunktfunkStatus>) -> (r: Result<
        Config,
        PunktfunkStatus,
    >)
        ensures
            r == self.configured(validated),
    {
        let config = match self.spell() {
            Ok(config) => config,
            Err(e) => return Err(e),
        };
        match validated {
            Ok(_) => Ok(config),
            Err(e) => Err(e),
        }
    }

    /// What reading a caller's record gives.
    pub open spec fn read_as(
        cfg: Option<PunktfunkConfig>,
        full_size: usize,
        validated: Result<(), PunktfunkStatus>,
    ) -> Result<Config, PunktfunkStatus> {
        match cfg {
            None => Err(PunktfunkStatus::NullPointer),
            Some(c) => if c.struct_size < full_size {
                Err(PunktfunkStatus::InvalidArg)
            } else {
                c.configured(validated)
            },
        }
    }

    /// Read a caller's record. `full_size` is what the record takes here: a
    /// caller built against a smaller one is refused before any field of it
    /// is believed. `validated` is what the session says of the configuration
    /// the record spells.
    pub fn read(
        cfg: Option<PunktfunkConfig>,
        full_size: usize,
        validated: Result<(), PunktfunkStatus>,
    ) -> (r: Result<Config, PunktfunkStatus>)
        ensures
            r == PunktfunkConfig::read_as(cfg, full_size, validated),
            r == match cfg {
                None => Err::<Config, PunktfunkStatus>(PunktfunkStatus::NullPointer),
                Some(c) => if c.struct_size < full_size {
                    Err(PunktfunkStatus::InvalidArg)
                } else {
                    c.configured(validated)
                },
            },
    {
        match cfg {
            None => Err(PunktfunkStatus::NullPointer),
            Some(c) => {
                if (c.struct_size as u64) < full_size as u64 {
                    return Err(PunktfunkStatus::InvalidArg);
                }
                c.to_config(validated)
            },
        }
    }
}

/// A reassembled access unit's description. Its bytes stay with the session.
#[derive(Clone, Copy, Debug, PartialEq, Eq, Structural)]
pub struct PunktfunkFrame {
    pub len: usize,
    pub frame_index: u32,
    pub pts_ns: u64,
    pub flags: u32,
}

impl PunktfunkFrame {
    /// The description of a frame.
    pub open spec fn described(frame: Frame) -> PunktfunkFrame {
        PunktfunkFrame {
            len: frame.data@.len() as usize,
            frame_index: frame.frame_index,
            pts_ns: frame.pts_ns,
            flags: frame.flags,
        }
    }

    pub fn of(frame: &Frame) -> (out: PunktfunkFrame)
        ensures
            out == PunktfunkFrame::described(*frame),
            out.len == frame.data@.len(),
            out.frame_index == frame.frame_index,
            out.pts_ns == frame.pts_ns,
            out.flags == frame.flags,
    {
        PunktfunkFrame {
            len: frame.data.len(),
            frame_index: frame.frame_index,
            pts_ns: frame.pts_ns,
            flags: frame.flags,
        }
    }
}

/// The session's counters.
#[derive(Clone, Copy, Debug, PartialEq, Eq, Structural)]
pub struct PunktfunkStats {
    pub frames_submitted: u64,
    pub frames_completed: u64,
    pub frames_dropped: u64,
    pub packets_sent: u64,
    pub packets_received: u64,
    pub packets_dropped: u64,
    pub packets_send_dropped: u64,
    pub fec_recovered_shards: u64,
    pub bytes_sent: u64,
    pub bytes_received: u64,
}

/// The counters a session's snapshot gives.
pub open spec fn counters(s: Stats) -> PunktfunkStats {
    PunktfunkStats {
        frames_submitted: s.frames_submitted,
        frames_completed: s.frames_completed,
        frames_dropped: s.frames_dropped,
        packets_sent: s.packets_sent,
        packets_received: s.packets_received,
        packets_dropped: s.packets_dropped,
        packets_send_dropped: s.packets_send_dropped,
        fec_recovered_shards: s.fec_recovered_shards,
        bytes_sent: s.bytes_sent,
        bytes_received: s.bytes_received,
    }
}

impl From<Stats> for PunktfunkStats {
    fn from(s: Stats) -> (out: PunktfunkStats) {
        PunktfunkStats {
            frames_submitted: s.frames_submitted,
            frames_completed: s.frames_completed,
            frames_dropped: s.frames_dropped,
            packets_sent: s.packets_sent,
            packets_received: s.packets_received,
            packets_dropped: s.packets_dropped,
            packets_send_dropped: s.packets_send_dropped,
            fec_recovered_shards: s.fec_recovered_shards,
            bytes_sent: s.bytes_sent,
            bytes_received: s.bytes_received,
        }
    }
}

impl vstd::std_specs::convert::FromSpecImpl<Stats> for PunktfunkStats {
    open spec fn obeys_from_spec() -> bool {
        true
    }

    open spec fn from_spec(s: Stats) -> PunktfunkStats {
        counters(s)
    }
}

impl Default for PunktfunkStats {
    fn default() -> (out: PunktfunkStats)
        ensures
            out == counters(Stats::zero()),
    {
        PunktfunkStats::from(Stats::zero())
    }
}

/// Only a configuration that the session validates is run with, and it is the
/// one it validated.
pub proof fn law_nothing_runs_unvalidated(
    c: PunktfunkConfig,
    validated: Result<(), PunktfunkStatus>,
)
    ensures
        c.configured(validated) is Ok <==> c.in_range() && validated is Ok,
        c.configured(validated) matches Ok(config) ==> config == c.spelled(),
        c.in_range() ==> (validated matches Err(e) ==> c.configured(validated) == Err::<
            Config,
            PunktfunkStatus,
        >(e)),
{
}

/// Nothing is narrowed in silence: a configuration that is accepted reads
/// back to the numbers the caller sent.
pub proof fn law_accepted_numbers_are_kept(c: PunktfunkConfig)
    requires
        c.in_range(),
    ensures
        c.spelled().fec.fec_percent == c.fec_percent,
        c.spelled().fec.max_data_per_block == c.max_data_per_block,
        c.spelled().shard_payload == c.shard_payload,
        c.spelled().fec.scheme == FecScheme::from_u8(c.fec_scheme as u8)->0,
{
}

/// A record spells what its numbers say: nought is the host and one the
/// client, one and two are the phases, nought and one the repair fields, and
/// anything but nought encrypts. Any other number is refused.
pub proof fn law_a_record_spells_its_numbers(c: PunktfunkConfig)
    ensures
        c.spelling() is Ok <==> c.role <= 1 && (c.phase == 1 || c.phase == 2) && c.fec_scheme <= 1
            && c.fec_percent <= 255 && c.max_data_per_block <= 65_535,
        c.spelling() matches Err(e) ==> e == PunktfunkStatus::InvalidArg,
        c.spelling() matches Ok(config) ==> {
            &&& (config.role == Role::Host <==> c.role == 0) && (config.role == Role::Client
                <==> c.role == 1)
            &&& (config.phase == ProtocolPhase::P1GameStream <==> c.phase == 1) && (config.phase
                == ProtocolPhase::P2Punktfunk <==> c.phase == 2)
            &&& (config.fec.scheme == FecScheme::Gf8 <==> c.fec_scheme == 0) && (config.fec.scheme
                == FecScheme::Gf16 <==> c.fec_scheme == 1)
            &&& config.fec.fec_percent == c.fec_percent && config.fec.max_data_per_block
                == c.max_data_per_block
            &&& config.shard_payload == c.shard_payload
            &&& c.max_frame_bytes <= u32::MAX ==> config.max_frame_bytes == c.max_frame_bytes
            &&& config.encrypt <==> c.encrypt != 0
            &&& config.key == c.key && config.salt == c.salt && config.loopback_drop_period
                == c.loopback_drop_period
        },
{
}

/// No record is a null pointer, a small one is refused before it is believed,
/// and one that is read is held to its numbers and to the session's word.
pub proof fn law_a_record_is_read_in_order(
    c: PunktfunkConfig,
    full_size: usize,
    validated: Result<(), PunktfunkStatus>,
)
    ensures
        PunktfunkConfig::read_as(None, full_size, validated) == Err::<Config, PunktfunkStatus>(
            PunktfunkStatus::NullPointer,
        ),
        c.struct_size < full_size ==> PunktfunkConfig::read_as(Some(c), full_size, validated)
            == Err::<Config, PunktfunkStatus>(PunktfunkStatus::InvalidArg),
        c.struct_size >= full_size && c.spelling() is Err ==> PunktfunkConfig::read_as(
            Some(c),
            full_size,
            validated,
        ) == Err::<Config, PunktfunkStatus>(PunktfunkStatus::InvalidArg),
        c.struct_size >= full_size && validated is Ok ==> PunktfunkConfig::read_as(
            Some(c),
            full_size,
            validated,
        ) == c.spelling(),
        c.struct_size >= full_size && c.spelling() is Ok ==> (validated matches Err(e)
            ==> PunktfunkConfig::read_as(Some(c), full_size, validated) == Err::<
            Config,
            PunktfunkStatus,
        >(e)),
{
}

/// A frame's description and a session's counters are the frame's and the
/// session's own, each under its own name.
pub proof fn law_records_keep_their_names(frame: Frame, s: Stats)
    requires
        frame.data@.len() <= usize::MAX,
    ensures
        PunktfunkFrame::described(frame).len == frame.data@.len(),
        PunktfunkFrame::described(frame).frame_index == frame.frame_index,
        PunktfunkFrame::described(frame).pts_ns == frame.pts_ns,
        PunktfunkFrame::described(frame).flags == frame.flags,
        counters(s).frames_submitted == s.frames_submitted && counters(s).frames_completed
            == s.frames_completed && counters(s).frames_dropped == s.frames_dropped,
        counters(s).packets_sent == s.packets_sent && counters(s).packets_received
            == s.packets_received && counters(s).packets_dropped == s.packets_dropped && counters(
            s,
        ).packets_send_dropped == s.packets_send_dropped,
        counters(s).fec_recovered_shards == s.fec_recovered_shards && counters(s).bytes_sent
            == s.bytes_sent && counters(s).bytes_received == s.bytes_received,
{
}

} // verus!
