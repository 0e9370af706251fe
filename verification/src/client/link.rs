//! Small decisions around a connection's start and end.

use crate::error::PunktfunkStatus;
use crate::quic::{QUIT_CLOSE_CODE, VIDEO_CAP_HOST_TIMING, VIDEO_CAP_PROBE_SEQ};
use vstd::prelude::*;

verus! {

/// The capabilities with host timings and filler numbers among them.
pub open spec fn with_own_caps(video_caps: u8) -> u8 {
    video_caps | VIDEO_CAP_HOST_TIMING | VIDEO_CAP_PROBE_SEQ
}

/// The video capabilities a client advertises: the embedder's, and the two
/// that every client has.
pub fn advertised_caps(video_caps: u8) -> (caps: u8)
    ensures
        caps == with_own_caps(video_caps),
        caps == video_caps | VIDEO_CAP_HOST_TIMING | VIDEO_CAP_PROBE_SEQ,
        caps & VIDEO_CAP_HOST_TIMING == VIDEO_CAP_HOST_TIMING,
        caps & VIDEO_CAP_PROBE_SEQ == VIDEO_CAP_PROBE_SEQ,
        caps & video_caps == video_caps,
{
    assert((video_caps | 0x08 | 0x10) & 0x08 == 0x08u8) by (bit_vector);
    assert((video_caps | 0x08 | 0x10) & 0x10 == 0x10u8) by (bit_vector);
    assert((video_caps | 0x08 | 0x10) & video_caps == video_caps) by (bit_vector);
    video_caps | VIDEO_CAP_HOST_TIMING | VIDEO_CAP_PROBE_SEQ
}

/// The rate adaptive bitrate starts from: the host's, if the embedder asked
/// for none. Zero keeps it off.
#[verifier::allow_in_spec]
pub fn adaptive_start(asked_kbps: u32, resolved_kbps: u32) -> u32
    returns
        (if asked_kbps == 0 {
            resolved_kbps
        } else {
            0
        }),
{
    if asked_kbps == 0 {
        resolved_kbps
    } else {
        0
    }
}

/// The code a connection is closed with: a deliberate quit tells the host not
/// to wait for a reconnect.
#[verifier::allow_in_spec]
pub fn close_code(quit: bool) -> u32
    returns
        (if quit {
            QUIT_CLOSE_CODE
        } else {
            0
        }),
{
    if quit {
        QUIT_CLOSE_CODE
    } else {
        0
    }
}

fn same_print(a: &[u8; 32], b: &[u8; 32]) -> (same: bool)
    ensures
        same == (a@ == b@),
{
    let mut i: usize = 0;
    while i < 32
        invariant
            i <= 32,
            forall|j: int| 0 <= j < i ==> a@[j] == b@[j],
        decreases 32 - i,
    {
        if a[i] != b[i] {
            assert(a@[i as int] != b@[i as int]);
            return false;
        }
        i = i + 1;
    }
    assert(a@ =~= b@);
    true
}

/// What a connection that failed is reported as.
pub open spec fn connect_status(pin: Option<[u8; 32]>, observed: Option<[u8; 32]>) -> PunktfunkStatus {
    if pin is Some && observed is Some && pin->0@ != observed->0@ {
        PunktfunkStatus::Crypto
    } else {
        PunktfunkStatus::Io
    }
}

/// Why a connection failed: a host that showed another fingerprint than the
/// pinned one is the wrong host, anything else is trouble on the way.
pub fn connect_error(pin: &Option<[u8; 32]>, observed: &Option<[u8; 32]>) -> (e: PunktfunkStatus)
    ensures
        e == connect_status(*pin, *observed),
        e == if (pin matches Some(p) && observed matches Some(o) && p@ != o@) {
            PunktfunkStatus::Crypto
        } else {
            PunktfunkStatus::Io
        },
{
    match pin {
        Some(p) => match observed {
            Some(o) => if same_print(p, o) {
                PunktfunkStatus::Io
            } else {
                PunktfunkStatus::Crypto
            },
            None => PunktfunkStatus::Io,
        },
        None => PunktfunkStatus::Io,
    }
}

/// How an attempt to connect ended without a session.
#[derive(Clone, Copy, Debug, PartialEq, Eq)]
pub enum ConnectFailure {
    /// Nothing was settled in time.
    Late,
    /// The connection failed, after the host had shown this fingerprint if
    /// any.
    Handshake(Option<[u8; 32]>),
    /// The connection stood, and the session could not be set up.
    Setup(PunktfunkStatus),
}

/// What an attempt that failed is reported as.
pub open spec fn reported_as(pin: Option<[u8; 32]>, failure: ConnectFailure) -> PunktfunkStatus {
    match failure {
        ConnectFailure::Late => PunktfunkStatus::Timeout,
        ConnectFailure::Handshake(observed) => connect_status(pin, observed),
        ConnectFailure::Setup(status) => status,
    }
}

/// What an attempt that failed is reported as.
pub fn failure_status(pin: &Option<[u8; 32]>, failure: &ConnectFailure) -> (e: PunktfunkStatus)
    ensures
        e == reported_as(*pin, *failure),
        e == match *failure {
            ConnectFailure::Late => PunktfunkStatus::Timeout,
            ConnectFailure::Handshake(observed) => if (pin matches Some(p) && observed matches Some(
                o,
            ) && p@ != o@) {
                PunktfunkStatus::Crypto
            } else {
                PunktfunkStatus::Io
            },
            ConnectFailure::Setup(status) => status,
        },
{
    match failure {
        ConnectFailure::Late => PunktfunkStatus::Timeout,
        ConnectFailure::Handshake(observed) => connect_error(pin, observed),
        ConnectFailure::Setup(status) => *status,
    }
}

/// How far a pairing has come.
#[derive(Clone, Copy, Debug, PartialEq, Eq, Structural)]
pub enum PairState {
    /// Connected; nothing was said yet.
    Fresh,
    /// The request is out, and the host's challenge is owed.
    Requested,
    /// The proof is out, and the host's answer is owed.
    Proved,
    /// It is decided.
    Over,
}

/// What happens to a pairing.
#[derive(Clone, Copy, Debug, PartialEq, Eq, Structural)]
pub enum PairEvent {
    /// The stream is open.
    Opened,
    /// The host's challenge, and whether its confirmation was verified: that
    /// it knows the PIN and saw the same certificates.
    Challenge { verified: bool },
    /// The host's answer to the proof.
    Answer { ok: bool },
}

/// What a pairing does next.
#[derive(Clone, Copy, Debug, PartialEq, Eq, Structural)]
pub enum PairAction {
    SendRequest,
    /// Send the client's own confirmation.
    SendProof,
    /// Paired: the host's fingerprint may be pinned.
    Finish,
    Fail(PunktfunkStatus),
}

impl PairState {
    /// The state after an event, and what to do. A host that cannot confirm
    /// the PIN is the wrong one and gets no proof; one that can may still
    /// refuse. What comes out of turn fails too.
    pub open spec fn stepped(self, e: PairEvent) -> (PairState, PairAction) {
        match (self, e) {
            (PairState::Fresh, PairEvent::Opened) => (
                PairState::Requested,
                PairAction::SendRequest,
            ),
            (PairState::Requested, PairEvent::Challenge { verified }) => if verified {
                (PairState::Proved, PairAction::SendProof)
            } else {
                (PairState::Over, PairAction::Fail(PunktfunkStatus::Crypto))
            },
            (PairState::Proved, PairEvent::Answer { ok }) => if ok {
                (PairState::Over, PairAction::Finish)
            } else {
                (PairState::Over, PairAction::Fail(PunktfunkStatus::Crypto))
            },
            _ => (PairState::Over, PairAction::Fail(PunktfunkStatus::Crypto)),
        }
    }

    pub fn step(&mut self, e: PairEvent) -> (action: PairAction)
        ensures
            (*final(self), action) == old(self).stepped(e),
            action == PairAction::SendProof ==> e == (PairEvent::Challenge { verified: true }),
    {
        let (next, action) = match (*self, e) {
            (PairState::Fresh, PairEvent::Opened) => (
                PairState::Requested,
                PairAction::SendRequest,
            ),
            (PairState::Requested, PairEvent::Challenge { verified }) => if verified {
                (PairState::Proved, PairAction::SendProof)
            } else {
                (PairState::Over, PairAction::Fail(PunktfunkStatus::Crypto))
            },
            (PairState::Proved, PairEvent::Answer { ok }) => if ok {
                (PairState::Over, PairAction::Finish)
            } else {
                (PairState::Over, PairAction::Fail(PunktfunkStatus::Crypto))
            },
            _ => (PairState::Over, PairAction::Fail(PunktfunkStatus::Crypto)),
        };
        *self = next;
        action
    }
}

/// The state of a pairing after each of `events`.
pub open spec fn paired_through(events: Seq<PairEvent>) -> PairState
    decreases events.len(),
{
    if events.len() == 0 {
        PairState::Fresh
    } else {
        paired_through(events.drop_last()).stepped(events.last()).0
    }
}

/// The client's confirmation goes out only on a challenge that was verified,
/// and a pairing succeeds only after one: no proof is sent, and no host
/// pinned, unless the host's confirmation was verified first.
pub proof fn law_no_proof_before_the_hosts(events: Seq<PairEvent>, e: PairEvent)
    ensures
        paired_through(events).stepped(e).1 == PairAction::SendProof ==> e == (
        PairEvent::Challenge { verified: true }),
        paired_through(events) == PairState::Proved || paired_through(events).stepped(e).1
            == PairAction::Finish ==> events.contains(PairEvent::Challenge { verified: true }),
    decreases events.len(),
{
    if events.len() > 0 {
        law_no_proof_before_the_hosts(events.drop_last(), events.last());
        assert(events[events.len() - 1] == events.last());
    }
}

/// The code a pairing connection is closed with.
#[verifier::allow_in_spec]
pub fn pairing_close_code(paired: bool) -> u32
    returns
        (if paired {
            0u32
        } else {
            1
        }),
{
    if paired {
        0
    } else {
        1
    }
}

/// The latency-critical threads with one more, unless it is listed or has no
/// number.
pub open spec fn with_thread(threads: Seq<i32>, tid: Option<i32>) -> Seq<i32> {
    match tid {
        Some(t) => if threads.contains(t) {
            threads
        } else {
            threads.push(t)
        },
        None => threads,
    }
}

/// Add a thread to the latency-critical ones. Each is listed once; a machine
/// that does not number its threads lists none.
pub fn register_thread(threads: &mut Vec<i32>, tid: Option<i32>)
    ensures
        final(threads)@ == with_thread(old(threads)@, tid),
{
    if let Some(t) = tid {
        let mut i: usize = 0;
        while i < threads.len()
            invariant
                i <= threads@.len(),
                tid == Some(t),
                threads@ == old(threads)@,
                forall|j: int| 0 <= j < i ==> threads@[j] != t,
            decreases threads@.len() - i,
        {
            if threads[i] == t {
                assert(old(threads)@[i as int] == t);
                return;
            }
            i = i + 1;
        }
        threads.push(t);
    }
}

/// Registering lists the thread, keeps every thread listed once, and keeps
/// those that were.
pub proof fn law_threads_are_listed_once(threads: Seq<i32>, tid: Option<i32>)
    requires
        threads.no_duplicates(),
    ensures
        with_thread(threads, tid).no_duplicates(),
        tid matches Some(t) ==> with_thread(threads, tid).contains(t),
        forall|u: i32| threads.contains(u) ==> with_thread(threads, tid).contains(u),
        with_thread(with_thread(threads, tid), tid) == with_thread(threads, tid),
{
    if let Some(t) = tid {
        if !threads.contains(t) {
            assert(threads.push(t)[threads.len() as int] == t);
            assert forall|u: i32| threads.contains(u) implies threads.push(t).contains(u) by {
                let i = choose|i: int| 0 <= i < threads.len() && threads[i] == u;
                assert(threads.push(t)[i] == u);
            }
        }
    }
}

/// The embedder's capabilities go out with host timings and filler numbers
/// added to them, and with nothing else.
pub proof fn law_a_client_adds_its_own_capabilities(video_caps: u8, bit: u8)
    requires
        bit < 8,
    ensures
        (with_own_caps(video_caps) >> bit) & 1 == 1 <==> (video_caps >> bit) & 1 == 1 || bit == 3
            || bit == 4,
{
    assert(((video_caps | 0x08 | 0x10) >> bit) & 1 == 1u8 <==> (video_caps >> bit) & 1 == 1u8 || bit
        == 3u8 || bit == 4u8) by (bit_vector)
        requires
            bit < 8u8,
    ;
}

/// Adaptive bitrate starts at the host's rate where the embedder named none,
/// and is off where it did. A quit closes with one, any other end with nought;
/// a pairing the other way around.
pub proof fn law_a_session_ends_as_it_was_ended(asked: u32, resolved: u32, flag: bool)
    ensures
        asked == 0 ==> adaptive_start(asked, resolved) == resolved,
        asked > 0 ==> adaptive_start(asked, resolved) == 0,
        close_code(true) == 1 && close_code(false) == 0,
        pairing_close_code(true) == 0 && pairing_close_code(false) == 1,
{
}

/// A host that showed a fingerprint other than the pinned one, and only that,
/// is the wrong host; an attempt that came to nothing in time is late; one
/// that failed in its setup says why.
pub proof fn law_a_wrong_host_is_told_apart(
    pin: [u8; 32],
    observed: [u8; 32],
    none: Option<[u8; 32]>,
    status: PunktfunkStatus,
)
    ensures
        pin@ != observed@ ==> connect_status(Some(pin), Some(observed)) == PunktfunkStatus::Crypto,
        pin@ == observed@ ==> connect_status(Some(pin), Some(observed)) == PunktfunkStatus::Io,
        connect_status(none, None) == PunktfunkStatus::Io,
        connect_status(None, none) == PunktfunkStatus::Io,
        reported_as(none, ConnectFailure::Late) == PunktfunkStatus::Timeout,
        reported_as(none, ConnectFailure::Setup(status)) == status,
        pin@ != observed@ ==> reported_as(
            Some(pin),
            ConnectFailure::Handshake(Some(observed)),
        ) == PunktfunkStatus::Crypto,
        reported_as(none, ConnectFailure::Handshake(None)) == PunktfunkStatus::Io,
{
}

/// A pairing goes one way: request, proof, finish, each on its own event, and
/// anything else ends it as the wrong host.
pub proof fn law_a_pairing_goes_one_way(s: PairState, e: PairEvent)
    ensures
        ({
            let (next, action) = s.stepped(e);
            let opens = s == PairState::Fresh && e is Opened;
            let proves = s == PairState::Requested && e == (PairEvent::Challenge { verified: true });
            let ends = s == PairState::Proved && e == (PairEvent::Answer { ok: true });
            &&& opens <==> action == PairAction::SendRequest
            &&& opens <==> next == PairState::Requested
            &&& proves <==> action == PairAction::SendProof
            &&& proves <==> next == PairState::Proved
            &&& ends <==> action == PairAction::Finish
            &&& !opens && !proves && !ends ==> action == PairAction::Fail(PunktfunkStatus::Crypto)
            &&& !opens && !proves ==> next == PairState::Over
        }),
{
}

} // verus!
