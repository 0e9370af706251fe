//! The bandwidth speed test: what arrived while the host burst its filler.
//!
//! Delivery is counted in wire packets, not in access units: past the repair
//! budget no access unit completes, though most bytes still arrive.

use crate::abr::probe::ProbeReport;
use crate::math::scaled;
use crate::stats::{since, Stats};
use vstd::prelude::*;

verus! {

/// A speed test asked of the host.
#[derive(Clone, Copy, Debug, PartialEq, Eq, Structural)]
pub struct ProbeRequest {
    pub target_kbps: u32,
    pub duration_ms: u32,
}

/// The host's end-of-burst report.
#[derive(Clone, Copy, Debug, PartialEq, Eq, Structural)]
pub struct ProbeResult {
    /// Goodput bytes and access units the host offered.
    pub bytes_sent: u64,
    pub packets_sent: u32,
    /// Wire packets put on the link, and those the send buffer refused.
    pub wire_packets_sent: u32,
    pub send_dropped: u32,
    pub duration_ms: u32,
}

/// A running or finished speed test.
#[derive(Clone, Copy, Debug, PartialEq, Eq, Structural)]
pub struct ProbeState {
    pub active: bool,
    /// The receive counters when the burst started, and now.
    pub base_packets: Option<u64>,
    pub base_bytes: Option<u64>,
    pub rx_packets_now: u64,
    pub rx_bytes_now: u64,
    /// What was delivered, frozen when the host's report landed.
    pub delivered_packets: u64,
    pub delivered_bytes: u64,
    pub host: ProbeResult,
    /// The host's report has landed.
    pub done: bool,
}

/// What a speed test measured, partial until `done`.
#[derive(Clone, Copy, Debug, PartialEq, Eq, Structural)]
pub struct ProbeOutcome {
    pub done: bool,
    /// Wire bytes and packets that arrived during the burst.
    pub recv_bytes: u64,
    pub recv_packets: u32,
    /// Goodput bytes and access units the host offered.
    pub host_bytes: u64,
    pub host_packets: u32,
    pub elapsed_ms: u32,
    /// Delivered wire rate, in kilobits per second.
    pub throughput_kbps: u32,
    /// Packets the host put on the wire that did not arrive.
    pub lost_packets: u32,
    /// Packets the host's encoder offered to its send buffer.
    pub offered_packets: u64,
    pub wire_packets_sent: u32,
    pub send_dropped: u32,
}

/// The rate at which `bytes` arrived within `ms`, in kilobits per second. No
/// rate without a window.
pub open spec fn rate_kbps(bytes: u64, ms: u32) -> u32 {
    if ms == 0 {
        0
    } else {
        #[verifier::truncate] ((scaled(bytes, 8) as int / ms as int) as u32)
    }
}

impl ProbeState {
    /// No test has been asked for.
    #[verifier::allow_in_spec]
    pub fn idle() -> ProbeState
        returns
            (ProbeState {
                active: false,
                base_packets: None,
                base_bytes: None,
                rx_packets_now: 0,
                rx_bytes_now: 0,
                delivered_packets: 0,
                delivered_bytes: 0,
                host: ProbeResult {
                    bytes_sent: 0,
                    packets_sent: 0,
                    wire_packets_sent: 0,
                    send_dropped: 0,
                    duration_ms: 0,
                },
                done: false,
            }),
    {
        ProbeState {
            active: false,
            base_packets: None,
            base_bytes: None,
            rx_packets_now: 0,
            rx_bytes_now: 0,
            delivered_packets: 0,
            delivered_bytes: 0,
            host: ProbeResult {
                bytes_sent: 0,
                packets_sent: 0,
                wire_packets_sent: 0,
                send_dropped: 0,
                duration_ms: 0,
            },
            done: false,
        }
    }

    /// A test has just been asked for: nothing of an earlier one is kept.
    #[verifier::allow_in_spec]
    pub fn started() -> ProbeState
        returns
            (ProbeState { active: true, ..ProbeState::idle() }),
    {
        ProbeState { active: true, ..ProbeState::idle() }
    }

    /// The burst is on the link.
    #[verifier::allow_in_spec]
    pub fn running(&self) -> bool
        returns
            self.active && !self.done,
    {
        self.active && !self.done
    }

    /// The state once the receive counters read `stats`. The first reading of
    /// a burst is its base.
    pub open spec fn mirrored(self, stats: Stats) -> ProbeState {
        if self.running() {
            ProbeState {
                rx_packets_now: stats.packets_received,
                rx_bytes_now: stats.bytes_received,
                base_packets: match self.base_packets {
                    Some(base) => Some(base),
                    None => Some(stats.packets_received),
                },
                base_bytes: match self.base_bytes {
                    Some(base) => Some(base),
                    None => Some(stats.bytes_received),
                },
                ..self
            }
        } else {
            self
        }
    }

    /// Mirror the session's receive counters. Says whether a burst runs.
    pub fn mirror(&mut self, stats: &Stats) -> (running: bool)
        ensures
            *final(self) == old(self).mirrored(*stats),
            running == old(self).running(),
    {
        if self.running() {
            *self = ProbeState {
                rx_packets_now: stats.packets_received,
                rx_bytes_now: stats.bytes_received,
                base_packets: match self.base_packets {
                    Some(base) => Some(base),
                    None => Some(stats.packets_received),
                },
                base_bytes: match self.base_bytes {
                    Some(base) => Some(base),
                    None => Some(stats.bytes_received),
                },
                ..*self
            };
            true
        } else {
            false
        }
    }

    /// Packets that arrived since the burst started, as far as mirrored.
    #[verifier::allow_in_spec]
    pub fn live_packets(&self) -> u64
        returns
            (match self.base_packets {
                Some(base) => since(self.rx_packets_now, base),
                None => 0,
            }),
    {
        match self.base_packets {
            Some(base) => since(self.rx_packets_now, base),
            None => 0,
        }
    }

    /// Bytes that arrived since the burst started, as far as mirrored.
    #[verifier::allow_in_spec]
    pub fn live_bytes(&self) -> u64
        returns
            (match self.base_bytes {
                Some(base) => since(self.rx_bytes_now, base),
                None => 0,
            }),
    {
        match self.base_bytes {
            Some(base) => since(self.rx_bytes_now, base),
            None => 0,
        }
    }

    /// The state once the host's report landed: what was delivered is frozen,
    /// so that resumed video cannot inflate it.
    pub open spec fn reported(self, result: ProbeResult) -> ProbeState {
        ProbeState {
            delivered_packets: self.live_packets(),
            delivered_bytes: self.live_bytes(),
            host: result,
            done: true,
            active: false,
            ..self
        }
    }

    /// The host's end-of-burst report landed.
    pub fn on_result(&mut self, result: ProbeResult)
        ensures
            *final(self) == old(self).reported(result),
    {
        let delivered_packets: u64 = self.live_packets();
        let delivered_bytes: u64 = self.live_bytes();
        *self = ProbeState {
            delivered_packets,
            delivered_bytes,
            host: result,
            done: true,
            active: false,
            ..*self
        };
    }

    /// What was delivered: live while the burst runs, frozen after it.
    pub open spec fn packets(self) -> u64 {
        if self.done {
            self.delivered_packets
        } else {
            self.live_packets()
        }
    }

    pub open spec fn bytes(self) -> u64 {
        if self.done {
            self.delivered_bytes
        } else {
            self.live_bytes()
        }
    }

    /// What the test measured so far.
    pub open spec fn measured(self) -> ProbeOutcome {
        ProbeOutcome {
            done: self.done,
            recv_bytes: self.bytes(),
            recv_packets: #[verifier::truncate] (self.packets() as u32),
            host_bytes: self.host.bytes_sent,
            host_packets: self.host.packets_sent,
            elapsed_ms: self.host.duration_ms,
            throughput_kbps: rate_kbps(self.bytes(), self.host.duration_ms),
            lost_packets: if self.host.wire_packets_sent > self.packets() {
                (self.host.wire_packets_sent - self.packets()) as u32
            } else {
                0
            },
            offered_packets: (self.host.wire_packets_sent + self.host.send_dropped) as u64,
            wire_packets_sent: self.host.wire_packets_sent,
            send_dropped: self.host.send_dropped,
        }
    }

    /// Read the measurement.
    pub fn outcome(&self) -> (outcome: ProbeOutcome)
        ensures
            outcome == self.measured(),
    {
        let packets: u64 = if self.done {
            self.delivered_packets
        } else {
            self.live_packets()
        };
        let bytes: u64 = if self.done {
            self.delivered_bytes
        } else {
            self.live_bytes()
        };
        let sent: u32 = self.host.wire_packets_sent;
        let throughput_kbps: u32 = if self.host.duration_ms == 0 {
            0
        } else {
            #[verifier::truncate] ((scaled(bytes, 8) / self.host.duration_ms as u64) as u32)
        };
        ProbeOutcome {
            done: self.done,
            recv_bytes: bytes,
            recv_packets: #[verifier::truncate] (packets as u32),
            host_bytes: self.host.bytes_sent,
            host_packets: self.host.packets_sent,
            elapsed_ms: self.host.duration_ms,
            throughput_kbps,
            lost_packets: if sent as u64 > packets {
                (sent as u64 - packets) as u32
            } else {
                0
            },
            offered_packets: sent as u64 + self.host.send_dropped as u64,
            wire_packets_sent: sent,
            send_dropped: self.host.send_dropped,
        }
    }
}

/// When a burst's packets arrived: first and last, on the client's clock.
#[derive(Clone, Copy, Debug, PartialEq, Eq, Structural)]
pub struct Arrivals {
    /// Packets seen so far.
    pub packets: u64,
    pub first: Option<u64>,
    pub last: u64,
}

impl Arrivals {
    /// Nothing has arrived since the counter read `packets`.
    #[verifier::allow_in_spec]
    pub fn since(packets: u64) -> Arrivals
        returns
            (Arrivals { packets, first: None, last: 0 }),
    {
        Arrivals { packets, first: None, last: 0 }
    }

    /// The arrivals once the counter reads `packets` at `now`. A counter that
    /// did not grow changes nothing.
    pub open spec fn with(self, packets: u64, now: u64) -> Arrivals {
        if packets > self.packets {
            Arrivals {
                packets,
                first: match self.first {
                    Some(first) => Some(first),
                    None => Some(now),
                },
                last: now,
            }
        } else {
            self
        }
    }

    pub fn note(&mut self, packets: u64, now: u64)
        ensures
            *final(self) == old(self).with(packets, now),
    {
        if packets > self.packets {
            let first: Option<u64> = match self.first {
                Some(first) => Some(first),
                None => Some(now),
            };
            *self = Arrivals { packets, first, last: now };
        }
    }

    /// From the first arrival to the last, in microseconds, as far as the
    /// type counts. Zero where there is no interval.
    pub open spec fn interval(self) -> u32 {
        match self.first {
            Some(first) => {
                let us = (self.last - first) / 1_000;
                if us < 0 {
                    0
                } else if us > u32::MAX {
                    u32::MAX
                } else {
                    us as u32
                }
            },
            None => 0,
        }
    }

    pub fn interval_us(&self) -> (us: u32)
        ensures
            us == self.interval(),
    {
        let first: u64 = match self.first {
            Some(first) => first,
            None => return 0,
        };
        if self.last < first {
            return 0;
        }
        let us: u64 = (self.last - first) / 1_000;
        if us > u32::MAX as u64 {
            u32::MAX
        } else {
            us as u32
        }
    }
}

impl Default for ProbeState {
    fn default() -> (state: ProbeState)
        ensures
            state == ProbeState::idle(),
    {
        ProbeState::idle()
    }
}

/// Once the host has reported, what the counters read later changes nothing:
/// resumed video cannot inflate a finished test.
pub proof fn law_a_finished_test_is_frozen(state: ProbeState, result: ProbeResult, later: Stats)
    ensures
        ({
            let finished = state.reported(result);
            &&& finished.mirrored(later) == finished
            &&& finished.measured().done
            &&& !finished.running()
        }),
{
}

/// A burst read from `base` to `last` delivered what lies between: the first
/// reading is the base, and readings in between do not move it.
pub proof fn law_delivery_counts_from_the_first_reading(
    base: Stats,
    between: Stats,
    last: Stats,
    result: ProbeResult,
)
    requires
        base.packets_received <= last.packets_received,
        base.bytes_received <= last.bytes_received,
    ensures
        ({
            let state = ProbeState::started().mirrored(base).mirrored(between).mirrored(last);
            let outcome = state.reported(result).measured();
            &&& state.reported(result).packets() == last.packets_received - base.packets_received
            &&& outcome.recv_bytes == last.bytes_received - base.bytes_received
        }),
{
}

/// Loss is never more than what the host put on the wire.
pub proof fn law_loss_is_part_of_what_was_sent(state: ProbeState)
    ensures
        state.measured().lost_packets <= state.measured().wire_packets_sent,
        state.measured().wire_packets_sent <= state.measured().offered_packets,
{
}

impl ProbeState {
    /// A finished burst as the rate control reads it. Its window is the
    /// client's own interval where that is a millisecond or more, else the
    /// host's.
    pub open spec fn told(self, arrivals: Arrivals) -> ProbeReport {
        let ms = (arrivals.interval() / 1_000) as u32;
        ProbeReport {
            delivered_bytes: self.bytes(),
            delivered_packets: self.packets(),
            window_ms: if ms > 0 {
                ms
            } else {
                self.host.duration_ms
            },
            host_duration_ms: self.host.duration_ms,
            client_interval_ms: ms,
            client_interval_us: arrivals.interval(),
            host_bytes_sent: self.host.bytes_sent,
            wire_packets_sent: self.host.wire_packets_sent,
            send_dropped: self.host.send_dropped,
        }
    }

    /// What the rate control is told: nothing before the host's report.
    pub open spec fn telling(self, arrivals: Arrivals) -> Option<ProbeReport> {
        if self.done {
            Some(self.told(arrivals))
        } else {
            None
        }
    }

    /// What to tell the rate control, once the host's report has landed.
    pub fn report(&self, arrivals: &Arrivals) -> (report: Option<ProbeReport>)
        ensures
            report == self.telling(*arrivals),
            report == if self.done {
                Some(self.told(*arrivals))
            } else {
                None
            },
    {
        if !self.done {
            return None;
        }
        let us: u32 = arrivals.interval_us();
        let ms: u32 = us / 1_000;
        Some(
            ProbeReport {
                delivered_bytes: self.delivered_bytes,
                delivered_packets: self.delivered_packets,
                window_ms: if ms > 0 {
                    ms
                } else {
                    self.host.duration_ms
                },
                host_duration_ms: self.host.duration_ms,
                client_interval_ms: ms,
                client_interval_us: us,
                host_bytes_sent: self.host.bytes_sent,
                wire_packets_sent: self.host.wire_packets_sent,
                send_dropped: self.host.send_dropped,
            },
        )
    }
}

impl Arrivals {
    /// The arrivals once a burst's state is known: a burst that has just
    /// started begins anew, a running one goes on, and without one nothing is
    /// noted.
    pub open spec fn followed(self, was_running: bool, running: bool, packets: u64, now: u64) -> Arrivals {
        if !running {
            self
        } else if !was_running {
            Arrivals::since(packets)
        } else {
            self.with(packets, now)
        }
    }

    pub fn follow(&mut self, was_running: bool, running: bool, packets: u64, now: u64)
        ensures
            *final(self) == old(self).followed(was_running, running, packets, now),
    {
        if running {
            if was_running {
                self.note(packets, now);
            } else {
                *self = Arrivals::since(packets);
            }
        }
    }
}

/// A test that was asked for runs until the host's report, and nothing of an
/// earlier one is left in it.
pub proof fn law_a_test_runs_until_its_report(state: ProbeState, stats: Stats, result: ProbeResult)
    ensures
        ProbeState::started().running() && !ProbeState::idle().running(),
        ProbeState::started().packets() == 0 && ProbeState::started().bytes() == 0,
        state.mirrored(stats).running() == state.running(),
        !state.reported(result).running(),
        state.reported(result).host == result && state.reported(result).measured().done,
        !ProbeState::started().mirrored(stats).measured().done,
        state.telling(Arrivals::since(0)) is Some <==> state.done,
{
}

/// The first reading of a burst is its base, packets to packets and bytes to
/// bytes; later ones count from it, and those after the report count nothing.
pub proof fn law_a_burst_counts_from_its_base(state: ProbeState, stats: Stats)
    requires
        state.running(),
    ensures
        ({
            let m = state.mirrored(stats);
            &&& m.base_packets == Some(
                match state.base_packets {
                    Some(base) => base,
                    None => stats.packets_received,
                },
            )
            &&& m.base_bytes == Some(
                match state.base_bytes {
                    Some(base) => base,
                    None => stats.bytes_received,
                },
            )
            &&& state.base_packets is None ==> m.packets() == 0
            &&& state.base_bytes is None ==> m.bytes() == 0
            &&& state.base_packets matches Some(base) ==> (stats.packets_received >= base
                ==> m.packets() == stats.packets_received - base)
            &&& state.base_bytes matches Some(base) ==> (stats.bytes_received >= base ==> m.bytes()
                == stats.bytes_received - base)
            &&& m.host == state.host
        }),
{
}

/// What a test measured: the host's own numbers as it sent them, what arrived
/// as the client counted it, what was put on the wire and did not arrive as
/// lost, and bits over milliseconds as the rate.
pub proof fn law_an_outcome_says_what_was_measured(state: ProbeState, sent: ProbeResult)
    requires
        state.host == sent,
    ensures
        ({
            let o = state.measured();
            &&& o.done == state.done && o.recv_bytes == state.bytes()
            &&& state.packets() <= u32::MAX ==> o.recv_packets == state.packets()
            &&& o.host_bytes == sent.bytes_sent && o.host_packets == sent.packets_sent
            &&& o.elapsed_ms == sent.duration_ms && o.wire_packets_sent == sent.wire_packets_sent
                && o.send_dropped == sent.send_dropped
            &&& o.offered_packets == sent.wire_packets_sent + sent.send_dropped
            &&& sent.wire_packets_sent >= state.packets() ==> o.lost_packets + state.packets()
                == sent.wire_packets_sent
            &&& sent.wire_packets_sent < state.packets() ==> o.lost_packets == 0
            &&& sent.duration_ms == 0 ==> o.throughput_kbps == 0
            &&& sent.duration_ms > 0 && state.bytes() * 8 <= u64::MAX && state.bytes() * 8
                < sent.duration_ms * 0x1_0000_0000 ==> o.throughput_kbps * sent.duration_ms
                <= state.bytes() * 8 < (o.throughput_kbps + 1) * sent.duration_ms
        }),
{
    let bits = state.bytes() * 8;
    let ms = sent.duration_ms as int;
    if ms > 0 && bits <= u64::MAX && bits < ms * 0x1_0000_0000 {
        let q = bits / ms;
        vstd::arithmetic::div_mod::lemma_fundamental_div_mod(bits, ms);
        vstd::arithmetic::div_mod::lemma_mod_bound(bits, ms);
        assert(ms * q == q * ms && (q + 1) * ms == q * ms + ms) by (nonlinear_arith);
        assert(0 <= q < 0x1_0000_0000) by (nonlinear_arith)
            requires
                ms >= 1,
                0 <= bits < ms * 0x1_0000_0000,
                q == bits / ms,
        ;
    }
}

/// Arrivals run from the first packet after the start to the last one that
/// came, and their interval is the time between in whole microseconds.
pub proof fn law_arrivals_run_from_first_to_last(a: Arrivals, packets: u64, now: u64)
    ensures
        Arrivals::since(packets).packets == packets && Arrivals::since(packets).first is None,
        Arrivals::since(packets).interval() == 0,
        packets <= a.packets ==> a.with(packets, now) == a,
        packets > a.packets ==> ({
            let w = a.with(packets, now);
            &&& w.packets == packets && w.last == now
            &&& a.first is None ==> w.first == Some(now)
            &&& a.first is Some ==> w.first == a.first
        }),
        a.first matches Some(first) ==> {
            &&& a.last >= first && a.last - first < 1_000 * 0x1_0000_0000 ==> a.interval() * 1_000
                <= a.last - first < (a.interval() + 1) * 1_000
            &&& a.last < first ==> a.interval() == 0
        },
{
}

/// A burst that has just started begins its arrivals anew, one that runs on
/// goes on, and without one they stand.
pub proof fn law_arrivals_follow_the_burst(a: Arrivals, was: bool, packets: u64, now: u64)
    ensures
        a.followed(was, false, packets, now) == a,
        a.followed(false, true, packets, now).packets == packets && a.followed(
            false,
            true,
            packets,
            now,
        ).first is None,
        a.followed(true, true, packets, now) == a.with(packets, now),
{
}

/// The rate control is told what the client measured and what the host sent.
/// The window is the client's own interval, where that is a millisecond.
pub proof fn law_the_rate_control_is_told_what_was_measured(state: ProbeState, a: Arrivals)
    ensures
        !state.done ==> state.telling(a) is None,
        state.done ==> (state.telling(a) matches Some(r) && {
            &&& r.delivered_bytes == state.delivered_bytes && r.delivered_packets
                == state.delivered_packets
            &&& r.client_interval_us == a.interval() && r.client_interval_ms == a.interval() / 1_000
            &&& a.interval() >= 1_000 ==> r.window_ms == a.interval() / 1_000
            &&& a.interval() < 1_000 ==> r.window_ms == state.host.duration_ms
            &&& r.host_duration_ms == state.host.duration_ms && r.host_bytes_sent
                == state.host.bytes_sent && r.wire_packets_sent == state.host.wire_packets_sent
                && r.send_dropped == state.host.send_dropped
        }),
{
}

} // verus!
