//! Gamepad input toward a host that takes full-state snapshots.
//!
//! The datagram plane drops and reorders, so a lost transition would leave a
//! pad's state wrong until its next change. A snapshot carries the whole
//! state and a sequence number; every pad touched is sent again on a refresh,
//! which bounds what a loss can cost.

use super::demux::{seq_newer, MAX_PADS};
use vstd::prelude::*;

verus! {

/// The host takes gamepad snapshots.
pub const HOST_CAP_GAMEPAD_STATE: u8 = 0x01;

/// Time between two refreshes, in nanoseconds.
pub const PAD_REFRESH_NS: u64 = 100_000_000;

/// What kind of input an event is, as far as the routing cares.
#[derive(Clone, Copy, Debug, PartialEq, Eq, Structural)]
pub enum PadInput {
    Button,
    Axis,
    /// Keyboard, mouse, touch and the rest.
    Other,
}

/// How an input event travels.
#[derive(Clone, Copy, Debug, PartialEq, Eq, Structural)]
pub enum Route {
    /// As it is.
    Pass,
    /// Folded into the snapshot of this pad.
    Fold(u8),
}

/// The pads touched so far, each with the sequence number it last sent.
pub struct Pads {
    /// The host takes snapshots.
    pub snapshots: bool,
    pub seqs: [Option<u8>; 16],
}

/// The number after `seq` on the 8-bit wheel.
#[verifier::allow_in_spec]
pub fn next_seq(seq: u8) -> u8
    returns
        (if seq == u8::MAX {
            0
        } else {
            (seq + 1) as u8
        }),
{
    if seq == u8::MAX {
        0
    } else {
        seq + 1
    }
}

/// What a refresh sends: every pad touched, in order, with its next number.
pub open spec fn refreshed(seqs: Seq<Option<u8>>) -> Seq<(u8, u8)>
    decreases seqs.len(),
{
    if seqs.len() == 0 {
        Seq::empty()
    } else {
        let before = refreshed(seqs.drop_last());
        match seqs.last() {
            Some(seq) => before.push(((seqs.len() - 1) as u8, next_seq(seq))),
            None => before,
        }
    }
}

/// The numbers after a refresh.
pub open spec fn advanced(seqs: Seq<Option<u8>>) -> Seq<Option<u8>> {
    seqs.map_values(
        |seq: Option<u8>|
            match seq {
                Some(seq) => Some(next_seq(seq)),
                None => None,
            },
    )
}

impl Pads {
    pub fn new(host_caps: u8) -> (pads: Pads)
        ensures
            pads.snapshots == (host_caps & HOST_CAP_GAMEPAD_STATE != 0),
            pads.seqs@ == Seq::new(16, |i: int| None::<u8>),
    {
        let pads = Pads {
            snapshots: host_caps & HOST_CAP_GAMEPAD_STATE != 0,
            seqs: [None; 16],
        };
        assert(pads.seqs@ =~= Seq::new(16, |i: int| None::<u8>));
        pads
    }

    /// Where an event for the pad at `index` goes: a button or an axis of a
    /// pad with a slot is folded where the host takes snapshots.
    pub open spec fn routed(self, kind: PadInput, index: u32) -> Route {
        if self.snapshots && kind != PadInput::Other && index < MAX_PADS {
            Route::Fold(index as u8)
        } else {
            Route::Pass
        }
    }

    /// The numbers after an event for the pad at `index`.
    pub open spec fn touched(self, kind: PadInput, index: u32) -> Seq<Option<u8>> {
        if self.routed(kind, index) is Fold && self.seqs@[index as int] is None {
            self.seqs@.update(index as int, Some(0u8))
        } else {
            self.seqs@
        }
    }

    /// Route an input event. A pad the first event reaches is touched from
    /// then on, whether or not the event changes its state.
    pub fn on_input(&mut self, kind: PadInput, index: u32) -> (route: Route)
        ensures
            route == old(self).routed(kind, index),
            final(self).snapshots == old(self).snapshots,
            final(self).seqs@ == old(self).touched(kind, index),
            final(self).seqs@ == if route is Fold && old(self).seqs@[index as int] is None {
                old(self).seqs@.update(index as int, Some(0u8))
            } else {
                old(self).seqs@
            },
    {
        if self.snapshots && kind != PadInput::Other && (index as usize) < MAX_PADS {
            if self.seqs[index as usize].is_none() {
                self.seqs[index as usize] = Some(0);
            }
            Route::Fold(index as u8)
        } else {
            Route::Pass
        }
    }

    /// The number of the pad's next snapshot.
    pub open spec fn folded(self, pad: u8) -> u8 {
        next_seq(self.seqs@[pad as int]->0)
    }

    /// The event changed the pad's state: the number its snapshot goes out
    /// with.
    pub fn on_folded(&mut self, pad: u8) -> (seq: u8)
        requires
            pad < MAX_PADS,
            old(self).seqs@[pad as int] is Some,
        ensures
            seq == old(self).folded(pad),
            seq == next_seq(old(self).seqs@[pad as int]->0),
            final(self).snapshots == old(self).snapshots,
            final(self).seqs@ == old(self).seqs@.update(pad as int, Some(seq)),
    {
        let seq: u8 = match self.seqs[pad as usize] {
            Some(seq) => next_seq(seq),
            None => 0,
        };
        self.seqs[pad as usize] = Some(seq);
        seq
    }

    /// Send every touched pad again: pad and number of each snapshot.
    pub fn refresh(&mut self) -> (sent: Vec<(u8, u8)>)
        ensures
            sent@ == refreshed(old(self).seqs@),
            final(self).snapshots == old(self).snapshots,
            final(self).seqs@ == advanced(old(self).seqs@),
    {
        let mut sent: Vec<(u8, u8)> = Vec::new();
        let mut i: usize = 0;
        let ghost was = self.seqs@;
        while i < MAX_PADS
            invariant
                was.len() == MAX_PADS,
                self.seqs@.len() == MAX_PADS,
                i <= MAX_PADS,
                self.snapshots == old(self).snapshots,
                sent@ == refreshed(was.take(i as int)),
                forall|j: int| 0 <= j < i ==> self.seqs@[j] == advanced(was)[j],
                forall|j: int| i <= j < MAX_PADS ==> self.seqs@[j] == was[j],
            decreases MAX_PADS - i,
        {
            assert(was.take(i + 1).drop_last() =~= was.take(i as int));
            if let Some(seq) = self.seqs[i] {
                self.seqs[i] = Some(next_seq(seq));
                sent.push((i as u8, next_seq(seq)));
            }
            i = i + 1;
        }
        assert(was.take(MAX_PADS as int) =~= was);
        assert(self.seqs@ =~= advanced(was));
        sent
    }
}

/// A refresh sends a snapshot for each pad touched and conjures none up.
pub proof fn law_a_refresh_sends_touched_pads(seqs: Seq<Option<u8>>, pad: int)
    requires
        seqs.len() <= MAX_PADS,
    ensures
        (0 <= pad < seqs.len() && seqs[pad] is Some) <==> exists|i: int|
            0 <= i < refreshed(seqs).len() && (#[trigger] refreshed(seqs)[i]).0 == pad,
    decreases seqs.len(),
{
    if seqs.len() > 0 {
        let fewer = seqs.drop_last();
        law_a_refresh_sends_touched_pads(fewer, pad);
        let all = refreshed(seqs);
        let before = refreshed(fewer);
        if seqs.last() is Some {
            assert(all[before.len() as int].0 == seqs.len() - 1);
        }
        if exists|i: int| 0 <= i < before.len() && (#[trigger] before[i]).0 == pad {
            let i = choose|i: int| 0 <= i < before.len() && (#[trigger] before[i]).0 == pad;
            assert(all[i] == before[i]);
        }
        if exists|i: int| 0 <= i < all.len() && (#[trigger] all[i]).0 == pad {
            let i = choose|i: int| 0 <= i < all.len() && (#[trigger] all[i]).0 == pad;
            if i < before.len() {
                assert(before[i].0 == pad);
            }
        }
    }
}

/// A snapshot sent later is newer to the host, the wheel's wrap included.
pub proof fn law_snapshots_count_up(seq: u8)
    ensures
        seq_newer(next_seq(seq), Some(seq)),
        !seq_newer(seq, Some(next_seq(seq))),
{
}

/// A host without the capability gets every event as it is.
pub proof fn law_an_older_host_gets_events(pads: Pads, kind: PadInput, index: u32)
    requires
        !pads.snapshots,
    ensures
        pads.routed(kind, index) == Route::Pass,
{
}

/// Numbers go up by one and start over after 255; a snapshot carries the one
/// after the pad's last.
pub proof fn law_the_next_number_follows(seq: u8, pads: Pads, pad: u8)
    requires
        pad < 16,
        pads.seqs@[pad as int] == Some(seq),
    ensures
        next_seq(seq) == (seq + 1) % 256,
        pads.folded(pad) == (seq + 1) % 256,
{
}

/// A button or an axis of one of the sixteen pads is folded into that pad
/// where the host takes snapshots; everything else passes. The pad is touched
/// from then on, at nought, and no other.
pub proof fn law_buttons_and_axes_are_folded(pads: Pads, kind: PadInput, index: u32)
    requires
        pads.snapshots,
        pads.seqs@.len() == 16,
    ensures
        kind == PadInput::Other || index >= 16 ==> pads.routed(kind, index) == Route::Pass
            && pads.touched(kind, index) == pads.seqs@,
        kind != PadInput::Other && index < 16 ==> (pads.routed(kind, index) matches Route::Fold(pad)
            && pad == index),
        kind != PadInput::Other && index < 16 ==> ({
            let after = pads.touched(kind, index);
            &&& pads.seqs@[index as int] is None ==> after[index as int] == Some(0u8)
            &&& pads.seqs@[index as int] is Some ==> after[index as int] == pads.seqs@[index as int]
            &&& forall|i: int| 0 <= i < 16 && i != index ==> after[i] == pads.seqs@[i]
        }),
{
}

/// A refresh gives each touched pad its next number, leaves the others
/// untouched, and sends the numbers it gave, in the order of the pads.
pub proof fn law_a_refresh_sends_the_next_numbers(seqs: Seq<Option<u8>>, i: int)
    requires
        seqs.len() <= 16,
    ensures
        0 <= i < refreshed(seqs).len() ==> ({
            let (pad, seq) = refreshed(seqs)[i];
            &&& pad < seqs.len()
            &&& seqs[pad as int] matches Some(was) && seq == (was + 1) % 256
            &&& advanced(seqs)[pad as int] == Some(seq)
        }),
        0 < i < refreshed(seqs).len() ==> refreshed(seqs)[i - 1].0 < refreshed(seqs)[i].0,
        forall|p: int| 0 <= p < seqs.len() && seqs[p] is None ==> advanced(seqs)[p] is None,
        refreshed(seqs).len() <= seqs.len(),
    decreases seqs.len(),
{
    if seqs.len() > 0 {
        let fewer = seqs.drop_last();
        law_a_refresh_sends_the_next_numbers(fewer, i);
        law_a_refresh_sends_the_next_numbers(fewer, i - 1);
        if seqs.last() is Some && 0 < i == refreshed(fewer).len() {
            assert(refreshed(fewer)[i - 1].0 < fewer.len());
        }
    }
}

} // verus!
