//! Topology changes in flight.
//!
//! While displays are evicted or restored, modes bounce, and whoever follows
//! the display descriptor must not act on a bounce. A hold says so. It is a
//! deadline, not a flag, so that a holder that dies cannot keep it.
//!
//! A change runs as a transaction on top of the hold. The topology generation
//! counts the transactions that saw the topology change, never the attempts.

use vstd::prelude::*;

verus! {

/// Nanoseconds in a millisecond, the grain of a hold.
pub const MS: u64 = 1_000_000;

/// One topology change in flight. Dropped unfinished, its outcome is not
/// known: the hold runs out by itself and the generation stays.
#[derive(Debug)]
pub struct Txn {
    pub id: u64,
    pub reason: &'static str,
    pub started: u64,
    pub deadline: u64,
}

/// What a finished transaction found.
#[derive(Clone, Copy, Debug, PartialEq, Eq, Structural)]
pub enum Outcome {
    /// A read afterwards showed the change.
    Changed,
    /// Nothing needed to change.
    Unchanged,
    /// The read failed, or came too late.
    Unknown,
}

/// A finished transaction.
#[derive(Clone, Copy, Debug, PartialEq, Eq)]
pub struct Finished {
    pub id: u64,
    pub reason: &'static str,
    pub outcome: Outcome,
    /// How long it took, in nanoseconds.
    pub took: u64,
    /// The generation after it.
    pub generation: u64,
}

/// The latch, the generation and the newest finished transaction.
#[derive(Clone, Copy, Debug)]
pub struct Churn {
    /// When the hold runs out, in milliseconds. Zero is no hold.
    pub hold_until_ms: u64,
    pub generation: u64,
    pub next_txn: u64,
    pub last: Option<Finished>,
}

/// The sum, at most the type's maximum.
pub open spec fn capped(n: int) -> u64 {
    if n > u64::MAX {
        u64::MAX
    } else {
        n as u64
    }
}

fn later(a: u64, b: u64) -> (r: u64)
    ensures
        r == capped(a + b),
{
    if a > u64::MAX - b {
        u64::MAX
    } else {
        a + b
    }
}

/// The outcome that counts. Nothing claimed after the deadline is trusted: the
/// change may still land.
pub open spec fn trusted(outcome: Outcome, deadline: u64, now: u64) -> Outcome {
    if now > deadline {
        Outcome::Unknown
    } else {
        outcome
    }
}

impl Churn {
    /// Nothing is held, and nothing has changed.
    pub open spec fn fresh() -> Churn {
        Churn { hold_until_ms: 0, generation: 0, next_txn: 1, last: None }
    }

    pub fn new() -> (c: Churn)
        ensures
            c == Churn::fresh(),
            c == (Churn { hold_until_ms: 0, generation: 0, next_txn: 1, last: None }),
    {
        Churn { hold_until_ms: 0, generation: 0, next_txn: 1, last: None }
    }

    /// The state held from `now` for `dur`. A hold that lasts longer stays.
    pub open spec fn holding(self, now: u64, dur: u64) -> Churn {
        let until = capped(now / MS + dur / MS);
        Churn {
            hold_until_ms: if until > self.hold_until_ms {
                until
            } else {
                self.hold_until_ms
            },
            ..self
        }
    }

    /// Hold from `now` for `dur`, both in nanoseconds.
    pub fn hold(&mut self, now: u64, dur: u64)
        ensures
            *final(self) == old(self).holding(now, dur),
    {
        let until: u64 = later(now / MS, dur / MS);
        if until > self.hold_until_ms {
            self.hold_until_ms = until;
        }
    }

    /// The state with no hold.
    pub open spec fn released(self) -> Churn {
        Churn { hold_until_ms: 0, ..self }
    }

    /// End the hold.
    pub fn release(&mut self)
        ensures
            *final(self) == old(self).released(),
            *final(self) == (Churn { hold_until_ms: 0, ..*old(self) }),
    {
        self.hold_until_ms = 0;
    }

    /// A change is in flight.
    #[verifier::allow_in_spec]
    pub fn held(&self, now: u64) -> bool
        returns
            (now / MS) < self.hold_until_ms,
    {
        (now / MS) < self.hold_until_ms
    }

    /// The state with a transaction open for `deadline`, and the transaction.
    pub open spec fn begun(self, reason: &'static str, now: u64, deadline: u64) -> (Churn, Txn) {
        (
            Churn {
                next_txn: if self.next_txn == u64::MAX {
                    0
                } else {
                    (self.next_txn + 1) as u64
                },
                ..self.holding(now, deadline)
            },
            Txn { id: self.next_txn, reason, started: now, deadline: capped(now + deadline) },
        )
    }

    /// Open a transaction: hold until its deadline, and name the change.
    pub fn begin(&mut self, reason: &'static str, now: u64, deadline: u64) -> (txn: Txn)
        ensures
            (*final(self), txn) == old(self).begun(reason, now, deadline),
            txn.id == old(self).next_txn,
            txn.reason@ == reason@,
            txn.started == now,
            txn.deadline == capped(now + deadline),
            *final(self) == (Churn {
                next_txn: if old(self).next_txn == u64::MAX {
                    0
                } else {
                    (old(self).next_txn + 1) as u64
                },
                ..old(self).holding(now, deadline)
            }),
    {
        self.hold(now, deadline);
        let id: u64 = self.next_txn;
        self.next_txn = id.wrapping_add(1);
        Txn { id, reason, started: now, deadline: later(now, deadline) }
    }

    /// The generation after a transaction that found `outcome`.
    pub open spec fn generation_after(self, outcome: Outcome) -> u64 {
        if outcome != Outcome::Changed {
            self.generation
        } else if self.generation == u64::MAX {
            0
        } else {
            (self.generation + 1) as u64
        }
    }

    /// The state with a transaction closed at `now`, and what it came to.
    pub open spec fn closed(self, txn: Txn, outcome: Outcome, now: u64) -> (Churn, Finished) {
        let found = trusted(outcome, txn.deadline, now);
        let f = Finished {
            id: txn.id,
            reason: txn.reason,
            outcome: found,
            took: if now > txn.started {
                (now - txn.started) as u64
            } else {
                0
            },
            generation: self.generation_after(found),
        };
        (Churn { generation: f.generation, last: Some(f), ..self }, f)
    }

    /// Close a transaction at `now`. The hold goes on: displays bounce after
    /// the change, and the deadline covers that.
    pub fn finish(&mut self, txn: Txn, outcome: Outcome, now: u64) -> (f: Finished)
        ensures
            (*final(self), f) == old(self).closed(txn, outcome, now),
            f.id == txn.id,
            f.reason@ == txn.reason@,
            f.outcome == trusted(outcome, txn.deadline, now),
            f.took == if now > txn.started {
                now - txn.started
            } else {
                0
            },
            f.generation == old(self).generation_after(f.outcome),
            *final(self) == (Churn { generation: f.generation, last: Some(f), ..*old(self) }),
    {
        let outcome = if now > txn.deadline {
            Outcome::Unknown
        } else {
            outcome
        };
        if outcome == Outcome::Changed {
            self.generation = self.generation.wrapping_add(1);
        }
        let f = Finished {
            id: txn.id,
            reason: txn.reason,
            outcome,
            took: if now > txn.started {
                now - txn.started
            } else {
                0
            },
            generation: self.generation,
        };
        self.last = Some(f);
        f
    }

    /// How many transactions saw the topology change.
    #[verifier::allow_in_spec]
    pub fn generation(&self) -> u64
        returns
            self.generation,
    {
        self.generation
    }

    /// The newest finished transaction.
    #[verifier::allow_in_spec]
    pub fn last(&self) -> Option<Finished>
        returns
            self.last,
    {
        self.last
    }
}

/// A hold covers its whole time, and a second one never shortens it.
pub proof fn law_a_hold_is_never_shortened(
    c: Churn,
    now: u64,
    dur: u64,
    then: u64,
    other: u64,
    at: u64,
)
    requires
        now / MS + dur / MS <= u64::MAX,
        (at / MS) < now / MS + dur / MS,
    ensures
        c.holding(now, dur).held(at),
        c.holding(now, dur).holding(then, other).held(at),
{
}

/// A hold runs out by itself: once every hold's time is past, nothing is
/// held.
pub proof fn law_a_hold_runs_out(c: Churn, now: u64, dur: u64, at: u64)
    requires
        c.hold_until_ms <= at / MS,
        at / MS >= now / MS + dur / MS,
    ensures
        !c.holding(now, dur).held(at),
{
}

/// The generation moves by one, and only with a change that was seen in time.
/// Past the deadline every outcome is unknown.
pub proof fn law_only_a_seen_change_counts(c: Churn, outcome: Outcome, deadline: u64, now: u64)
    requires
        c.generation < u64::MAX,
    ensures
        now > deadline ==> trusted(outcome, deadline, now) == Outcome::Unknown,
        now <= deadline ==> trusted(outcome, deadline, now) == outcome,
        c.generation_after(trusted(outcome, deadline, now)) == if outcome == Outcome::Changed
            && now <= deadline {
            c.generation + 1
        } else {
            c.generation as int
        },
{
}

/// A hold lasts to the later of what it was and what it is asked for, in whole
/// milliseconds, and is in force before that and not from it on. To release it
/// ends it at once.
pub proof fn law_a_hold_lasts_to_its_end(c: Churn, now: u64, dur: u64, at: u64)
    requires
        now / 1_000_000 + dur / 1_000_000 <= u64::MAX,
    ensures
        c.holding(now, dur).hold_until_ms >= c.hold_until_ms,
        c.holding(now, dur).hold_until_ms >= now / 1_000_000 + dur / 1_000_000,
        c.holding(now, dur).hold_until_ms == c.hold_until_ms || c.holding(now, dur).hold_until_ms
            == now / 1_000_000 + dur / 1_000_000,
        c.held(at) <==> at / 1_000_000 < c.hold_until_ms,
        !c.released().held(at),
        c.released().generation == c.generation && c.released().next_txn == c.next_txn
            && c.released().last == c.last,
        c.holding(now, dur).generation == c.generation && c.holding(now, dur).next_txn
            == c.next_txn && c.holding(now, dur).last == c.last,
        !Churn::fresh().held(at) && Churn::fresh().generation == 0 && Churn::fresh().last is None
            && Churn::fresh().next_txn == 1,
{
}

/// A transaction takes the next number, keeps its reason and its start, holds
/// for its whole time, and counts nothing yet.
pub proof fn law_a_transaction_is_numbered_and_held(
    c: Churn,
    reason: &'static str,
    now: u64,
    deadline: u64,
)
    requires
        now + deadline <= u64::MAX,
        c.next_txn < u64::MAX,
    ensures
        ({
            let (after, txn) = c.begun(reason, now, deadline);
            &&& txn.id == c.next_txn && after.next_txn == c.next_txn + 1
            &&& txn.reason == reason && txn.started == now && txn.deadline == now + deadline
            &&& after.hold_until_ms >= now / 1_000_000 + deadline / 1_000_000
            &&& after.generation == c.generation && after.last == c.last
        }),
{
}

/// A transaction that ends keeps its number and its reason, says how long it
/// took, and is the newest. Only a change seen by its deadline counts, and the
/// hold goes on.
pub proof fn law_a_transaction_ends_as_it_was_begun(c: Churn, txn: Txn, outcome: Outcome, now: u64)
    requires
        c.generation < u64::MAX,
        now >= txn.started,
    ensures
        ({
            let (after, f) = c.closed(txn, outcome, now);
            &&& f.id == txn.id && f.reason == txn.reason && f.took == now - txn.started
            &&& now <= txn.deadline ==> f.outcome == outcome
            &&& now > txn.deadline ==> f.outcome == Outcome::Unknown
            &&& f.outcome == Outcome::Changed ==> after.generation == c.generation + 1
            &&& f.outcome != Outcome::Changed ==> after.generation == c.generation
            &&& f.generation == after.generation && after.last == Some(f)
            &&& after.hold_until_ms == c.hold_until_ms && after.next_txn == c.next_txn
        }),
{
}

} // verus!
