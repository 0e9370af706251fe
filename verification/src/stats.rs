//! Session counters.

use vstd::prelude::*;

verus! {

/// A snapshot of the session's counters. Each only grows.
#[derive(Clone, Copy, Debug, PartialEq, Eq, Structural)]
pub struct Stats {
    pub frames_submitted: u64,
    /// Access units completed, a measurement's own filler included.
    pub frames_completed: u64,
    /// Access units lost beyond repair.
    pub frames_dropped: u64,
    pub packets_sent: u64,
    pub packets_received: u64,
    pub packets_dropped: u64,
    /// Packets the send path dropped because its buffer was full.
    pub packets_send_dropped: u64,
    /// Shards lost and repaired.
    pub fec_recovered_shards: u64,
    pub bytes_sent: u64,
    pub bytes_received: u64,
    /// Packets and bytes of a measurement's filler, counted above too.
    pub probe_packets_received: u64,
    pub probe_bytes_received: u64,
}

impl Stats {
    #[verifier::allow_in_spec]
    pub fn zero() -> Stats
        returns
            (Stats {
                frames_submitted: 0,
                frames_completed: 0,
                frames_dropped: 0,
                packets_sent: 0,
                packets_received: 0,
                packets_dropped: 0,
                packets_send_dropped: 0,
                fec_recovered_shards: 0,
                bytes_sent: 0,
                bytes_received: 0,
                probe_packets_received: 0,
                probe_bytes_received: 0,
            }),
    {
        Stats {
            frames_submitted: 0,
            frames_completed: 0,
            frames_dropped: 0,
            packets_sent: 0,
            packets_received: 0,
            packets_dropped: 0,
            packets_send_dropped: 0,
            fec_recovered_shards: 0,
            bytes_sent: 0,
            bytes_received: 0,
            probe_packets_received: 0,
            probe_bytes_received: 0,
        }
    }
}

impl Default for Stats {
    fn default() -> (s: Stats)
        ensures
            s == Stats::zero(),
    {
        Stats::zero()
    }
}

/// How far a counter has come since `mark`, none where it went back.
#[verifier::allow_in_spec]
pub fn since(counter: u64, mark: u64) -> u64
    returns
        (if counter >= mark {
            (counter - mark) as u64
        } else {
            0
        }),
{
    if counter >= mark {
        counter - mark
    } else {
        0
    }
}

/// Share of a window's shards that were lost before repair, in parts per
/// million. A window that lost frames beyond repair lost at least one shard.
pub open spec fn loss_share(recovered: u64, received: u64, dropped: u64) -> u32 {
    let lost = if recovered == 0 && dropped > 0 {
        1int
    } else {
        recovered as int
    };
    if lost == 0 {
        0
    } else {
        (lost * 1_000_000 / (lost + received)) as u32
    }
}

#[verifier::when_used_as_spec(loss_share)]
pub fn window_loss_ppm(recovered: u64, received: u64, dropped: u64) -> (ppm: u32)
    ensures
        ppm == loss_share(recovered, received, dropped),
        ppm <= 1_000_000,
{
    let lost: u128 = if recovered == 0 && dropped > 0 {
        1
    } else {
        recovered as u128
    };
    if lost == 0 {
        return 0;
    }
    let all: u128 = lost + received as u128;
    assert(0 <= lost * 1_000_000 / (all as int) <= 1_000_000) by (nonlinear_arith)
        requires
            0 < lost <= all,
    ;
    (lost * 1_000_000 / all) as u32
}

/// The loss is the share of the shards sent that had to be repaired: it times
/// all shards is what was repaired, rounded down to a part per million. A
/// frame lost beyond repair stands for one shard where none was repaired, and
/// a window that lost nothing reports nothing.
pub proof fn law_loss_is_a_share_of_what_was_sent(recovered: u64, received: u64, dropped: u64)
    ensures
        recovered > 0 ==> window_loss_ppm(recovered, received, dropped) * (recovered + received)
            <= recovered * 1_000_000,
        recovered > 0 ==> recovered * 1_000_000 < (window_loss_ppm(recovered, received, dropped)
            + 1) * (recovered + received),
        recovered == 0 && dropped == 0 ==> window_loss_ppm(recovered, received, dropped) == 0,
        recovered == 0 && dropped > 0 ==> window_loss_ppm(recovered, received, dropped)
            == window_loss_ppm(1, received, 0),
{
    if recovered > 0 {
        let all = recovered + received;
        let parts = recovered * 1_000_000;
        vstd::arithmetic::div_mod::lemma_fundamental_div_mod(parts, all);
        assert(0 <= parts / all <= 1_000_000) by (nonlinear_arith)
            requires
                0 < recovered <= all,
                parts == recovered * 1_000_000,
        ;
        assert(all * (parts / all) == (parts / all) * all) by (nonlinear_arith);
        assert((parts / all + 1) * all == (parts / all) * all + all) by (nonlinear_arith);
    }
}

/// What a counter grew by and where it was make where it is; one that went
/// back grew by nothing.
pub proof fn law_growth_adds_up(counter: u64, mark: u64)
    ensures
        mark <= counter ==> mark + since(counter, mark) == counter,
        counter <= mark ==> since(counter, mark) == 0,
{
}

/// A session's counters start at nought, every one of them.
pub proof fn law_counters_start_at_nought()
    ensures
        ({
            let z = Stats::zero();
            &&& z.frames_submitted == 0 && z.frames_completed == 0 && z.frames_dropped == 0
            &&& z.packets_sent == 0 && z.packets_received == 0 && z.packets_dropped == 0
                && z.packets_send_dropped == 0
            &&& z.fec_recovered_shards == 0 && z.bytes_sent == 0 && z.bytes_received == 0
            &&& z.probe_packets_received == 0 && z.probe_bytes_received == 0
        }),
{
}

} // verus!
