//! The host's encoder: one notch when its time rises, kept only if the time
//! follows.

use super::cap::{StandDown, StepProbe};
use super::decoder::{answer_us, fell, fell_by, notch};
use vstd::prelude::*;

verus! {

/// What the encoder said to a notch.
#[derive(Clone, Copy, Debug, PartialEq, Eq, Structural)]
pub enum EncodeAnswer {
    /// Nothing yet, or there was no notch.
    Waiting,
    /// Its time followed the rate down.
    Followed,
    /// It did not: the rate was never the lever. Go back to this one.
    Restore(u32),
}

/// What is known of the host's encoder.
#[derive(Clone, Copy, Debug, PartialEq, Eq, Structural)]
pub struct EncoderLoad {
    /// The notch waiting for an answer.
    pub probe: Option<StepProbe>,
    /// Encode rises are not answering the rate.
    pub down: StandDown,
}

impl EncoderLoad {
    pub open spec fn wf(self) -> bool {
        self.down.wf() && (self.probe is Some ==> self.probe->0.wf())
    }

    #[verifier::allow_in_spec]
    pub fn new() -> EncoderLoad
        returns
            (EncoderLoad { probe: None, down: StandDown::new() }),
    {
        EncoderLoad { probe: None, down: StandDown::new() }
    }

    /// The notch an encode-named window asks for: none while one is being
    /// judged, or when the window has no encode time to judge it by.
    #[verifier::allow_in_spec]
    pub fn next_notch(&self, encode_mean_us: Option<i64>, rate: u32, floor_kbps: u32) -> Option<u32>
        returns
            (if self.probe is None && encode_mean_us is Some {
                Some(notch(rate, floor_kbps))
            } else {
                None
            }),
    {
        if self.probe.is_none() && encode_mean_us.is_some() {
            Some(notch(rate, floor_kbps))
        } else {
            None
        }
    }

    /// The load after taking the notch.
    pub open spec fn notched(self, encode_mean_us: i64, rate: u32) -> EncoderLoad {
        EncoderLoad { probe: Some(StepProbe::new(rate, encode_mean_us)), ..self }
    }

    pub fn take_notch(&mut self, encode_mean_us: i64, rate: u32)
        requires
            old(self).wf(),
        ensures
            final(self).wf(),
            *final(self) == old(self).notched(encode_mean_us, rate),
    {
        self.probe = Some(StepProbe::new(rate, encode_mean_us));
    }

    /// The encode time a window lends the probe: only one at the new rate
    /// that had frames to encode.
    pub open spec fn signal(p: StepProbe, rate: u32, encode_mean_us: Option<i64>, readable: bool) -> Option<i64> {
        if rate < p.from_kbps && readable {
            encode_mean_us
        } else {
            None
        }
    }

    /// The load after a window, and what it said to the notch.
    pub open spec fn judged(
        self,
        rate: u32,
        encode_mean_us: Option<i64>,
        readable: bool,
        budget_us: i64,
    ) -> (EncoderLoad, EncodeAnswer) {
        match self.probe {
            None => (self, EncodeAnswer::Waiting),
            Some(p) => {
                let signal = EncoderLoad::signal(p, rate, encode_mean_us, readable);
                match p.answer(signal) {
                    None => (
                        EncoderLoad {
                            probe: if p.noted(signal).expired() {
                                None
                            } else {
                                Some(p.noted(signal))
                            },
                            ..self
                        },
                        EncodeAnswer::Waiting,
                    ),
                    Some(mean) => if fell(p.ref_us, mean, answer_us(budget_us)) {
                        (EncoderLoad { probe: None, ..self }, EncodeAnswer::Followed)
                    } else {
                        (
                            EncoderLoad { probe: None, down: self.down.switched_off() },
                            EncodeAnswer::Restore(p.from_kbps),
                        )
                    },
                }
            },
        }
    }

    /// One window for the notch in flight. `readable` is a window that was
    /// neither quiet nor starved: the mean of any other describes the
    /// interruption.
    pub fn judge(
        &mut self,
        rate: u32,
        encode_mean_us: Option<i64>,
        readable: bool,
        budget_us: i64,
    ) -> (answer: EncodeAnswer)
        requires
            old(self).wf(),
            0 <= budget_us <= 1_000_000,
        ensures
            final(self).wf(),
            (*final(self), answer) == old(self).judged(rate, encode_mean_us, readable, budget_us),
    {
        let mut p: StepProbe = match self.probe {
            Some(p) => p,
            None => {
                return EncodeAnswer::Waiting;
            },
        };
        let signal: Option<i64> = if rate < p.from_kbps && readable {
            encode_mean_us
        } else {
            None
        };
        match p.note(signal) {
            None => {
                self.probe =
                if p.expired() {
                    None
                } else {
                    Some(p)
                };
                EncodeAnswer::Waiting
            },
            Some(mean) => {
                self.probe = None;
                if fell_by(p.ref_us, mean, answer_us(budget_us)) {
                    return EncodeAnswer::Followed;
                }
                self.down.disarm();
                EncodeAnswer::Restore(p.from_kbps)
            },
        }
    }
}

/// A notch the encoder does not answer gives back exactly what it took and
/// switches the driver off.
pub proof fn law_an_unanswered_notch_is_given_back(
    load: EncoderLoad,
    rate: u32,
    encode_mean_us: Option<i64>,
    readable: bool,
    budget_us: i64,
)
    requires
        load.wf(),
    ensures
        load.judged(rate, encode_mean_us, readable, budget_us).1 matches EncodeAnswer::Restore(
            kbps,
        ) ==> {
            &&& load.probe is Some
            &&& kbps == load.probe->0.from_kbps
            &&& load.judged(rate, encode_mean_us, readable, budget_us).0.down.down
            &&& load.judged(rate, encode_mean_us, readable, budget_us).0.probe is None
        },
{
}

/// A window lends the notch its encode time only if it ran at the lower rate
/// and had frames to encode; a notch without an answer is let go when it is
/// too old, and one the encoder followed is kept.
pub proof fn law_a_notch_waits_for_its_answer(
    load: EncoderLoad,
    p: StepProbe,
    rate: u32,
    us: Option<i64>,
    readable: bool,
    budget_us: i64,
)
    requires
        load.wf(),
        load.probe == Some(p),
    ensures
        ({
            let (after, answer) = load.judged(rate, us, readable, budget_us);
            let lends = rate < p.from_kbps && readable && us is Some;
            &&& !(lends && p.samples == 2) ==> answer is Waiting && after.down == load.down
            &&& !lends ==> (after.probe matches Some(q) ==> q.samples == p.samples && q.sum_us
                == p.sum_us)
            &&& lends && p.samples == 2 ==> !(answer is Waiting) && after.probe is None
            &&& answer is Followed ==> after.down == load.down
            &&& answer is Waiting && p.age == 15 ==> after.probe is None
            &&& answer is Waiting && p.age < 15 ==> after.probe is Some
        }),
        EncoderLoad::new().judged(rate, us, readable, budget_us).1 is Waiting,
        load.next_notch(us, rate, 1) is None,
{
}

/// A notch is followed where encode time fell by a twentieth of the budget or
/// more, and given back otherwise: the third reading decides on the mean of
/// the three.
pub proof fn law_a_notch_is_held_to_its_promise(
    load: EncoderLoad,
    p: StepProbe,
    rate: u32,
    us: i64,
    budget_us: i64,
)
    requires
        load.wf(),
        load.probe == Some(p),
        p.samples == 2,
        rate < p.from_kbps,
        0 <= budget_us <= 1_000_000,
        0 <= us <= 1_000_000_000_000,
        0 <= p.sum_us <= 1_000_000_000_000,
    ensures
        ({
            let (after, answer) = load.judged(rate, Some(us), true, budget_us);
            let mean = (p.sum_us + us) / 3;
            &&& p.ref_us - mean >= budget_us / 20 ==> answer is Followed && after.down == load.down
            &&& p.ref_us - mean < budget_us / 20 ==> answer == EncodeAnswer::Restore(p.from_kbps)
                && after.down.down
        }),
{
}

} // verus!
