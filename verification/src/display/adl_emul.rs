//! Connector emulation: what the driver's answers mean, which connectors a
//! stream holds pinned, and how they are let go.
//!
//! A sink that is connected but asleep is serviced below every lever the
//! desktop has. Pinning its current data and turning emulation on stops that
//! at the source. A pin outlives the process, so what is pinned is journaled.

use crate::text::{
    append_decimal, append_signed, append_truth, decimal, number_in, parse_number, signed, truth,
};
use vstd::prelude::*;
use vstd::string::*;

verus! {

pub const ADL_OK: i32 = 0;

pub const ADL_ERR_NOT_SUPPORTED: i32 = -8;

/// The name of a driver's return code.
pub open spec fn rc_name(rc: i32) -> Seq<char> {
    if rc == 0 {
        "ADL_OK"@
    } else if 1 <= rc <= 4 {
        "ADL_OK_(warning-class)"@
    } else if rc == -1 {
        "ADL_ERR"@
    } else if rc == -2 {
        "ADL_ERR_NOT_INIT"@
    } else if rc == -3 {
        "ADL_ERR_INVALID_PARAM"@
    } else if rc == -5 {
        "ADL_ERR_INVALID_ADL_IDX"@
    } else if rc == -8 {
        "ADL_ERR_NOT_SUPPORTED"@
    } else if rc == -9 {
        "ADL_ERR_NULL_POINTER"@
    } else if rc == -10 {
        "ADL_ERR_DISABLED_ADAPTER"@
    } else if rc == -22 {
        "ADL_ERR_CALL_TO_INCOMPATIABLE_DRIVER"@
    } else if rc == -23 {
        "ADL_ERR_NO_ADMINISTRATOR_PRIVILEGES"@
    } else {
        "?"@
    }
}

pub fn rc_str(rc: i32) -> (name: &'static str)
    ensures
        name@ == rc_name(rc),
{
    if rc == 0 {
        "ADL_OK"
    } else if 1 <= rc && rc <= 4 {
        "ADL_OK_(warning-class)"
    } else if rc == -1 {
        "ADL_ERR"
    } else if rc == -2 {
        "ADL_ERR_NOT_INIT"
    } else if rc == -3 {
        "ADL_ERR_INVALID_PARAM"
    } else if rc == -5 {
        "ADL_ERR_INVALID_ADL_IDX"
    } else if rc == -8 {
        "ADL_ERR_NOT_SUPPORTED"
    } else if rc == -9 {
        "ADL_ERR_NULL_POINTER"
    } else if rc == -10 {
        "ADL_ERR_DISABLED_ADAPTER"
    } else if rc == -22 {
        "ADL_ERR_CALL_TO_INCOMPATIABLE_DRIVER"
    } else if rc == -23 {
        "ADL_ERR_NO_ADMINISTRATOR_PRIVILEGES"
    } else {
        "?"
    }
}

/// The name of a kind of connector.
pub open spec fn connector_type_name(t: i32) -> Seq<char> {
    if t == 1 {
        "VGA"@
    } else if t == 2 {
        "DVI-D"@
    } else if t == 3 {
        "DVI-I"@
    } else if t == 8 {
        "HDMI-A"@
    } else if t == 9 {
        "HDMI-B"@
    } else if t == 10 {
        "DP"@
    } else if t == 11 {
        "eDP"@
    } else if t == 12 {
        "miniDP"@
    } else if t == 13 {
        "VIRTUAL"@
    } else if t == 14 {
        "USB-C"@
    } else {
        "unknown"@
    }
}

pub fn connector_type_str(t: i32) -> (name: &'static str)
    ensures
        name@ == connector_type_name(t),
{
    if t == 1 {
        "VGA"
    } else if t == 2 {
        "DVI-D"
    } else if t == 3 {
        "DVI-I"
    } else if t == 8 {
        "HDMI-A"
    } else if t == 9 {
        "HDMI-B"
    } else if t == 10 {
        "DP"
    } else if t == 11 {
        "eDP"
    } else if t == 12 {
        "miniDP"
    } else if t == 13 {
        "VIRTUAL"
    } else if t == 14 {
        "USB-C"
    } else {
        "unknown"
    }
}

/// What is done to the connectors.
#[derive(Clone, Copy, Debug, PartialEq, Eq, Structural)]
pub enum EmulAction {
    /// Read only.
    Probe,
    /// Pin the current data and turn emulation on.
    Lock,
    /// Turn emulation off and remove the pinned data.
    Unlock,
}

/// One driver call and what came of it.
#[derive(Debug)]
pub struct OpRecord {
    pub op: &'static str,
    pub target: String,
    pub took_ms: u128,
    pub rc: i32,
    pub extra: String,
}

/// What a record says.
#[verifier::ext_equal]
pub struct Record {
    pub op: Seq<char>,
    pub target: Seq<char>,
    pub took_ms: u128,
    pub rc: i32,
    pub extra: Seq<char>,
}

impl View for OpRecord {
    type V = Record;

    open spec fn view(&self) -> Record {
        Record {
            op: self.op@,
            target: self.target@,
            took_ms: self.took_ms,
            rc: self.rc,
            extra: self.extra@,
        }
    }
}

/// What a list of records says.
pub open spec fn records_of(recs: Seq<OpRecord>) -> Seq<Record> {
    recs.map_values(|r: OpRecord| r@)
}

/// A record as a log line.
pub open spec fn log_line(r: Record) -> Seq<char> {
    r.op + " "@ + r.target + " took_ms="@ + decimal(r.took_ms as nat) + " ok="@ + truth(
        r.rc == ADL_OK,
    ) + " rc="@ + signed(r.rc as int) + "("@ + rc_name(r.rc) + ")"@ + (if r.extra.len() == 0 {
        ""@
    } else {
        " "@
    }) + r.extra
}

impl OpRecord {
    /// The call succeeded.
    #[verifier::allow_in_spec]
    pub fn ok(&self) -> bool
        returns
            self.rc == ADL_OK,
    {
        self.rc == ADL_OK
    }

    /// The record as a log line. The caller puts the time in front.
    pub fn line(&self) -> (line: String)
        ensures
            line@ == log_line(self@),
    {
        let mut line: String = String::from_str(self.op);
        line.append(" ");
        line.append(self.target.as_str());
        line.append(" took_ms=");
        append_decimal(&mut line, self.took_ms);
        line.append(" ok=");
        append_truth(&mut line, self.ok());
        line.append(" rc=");
        append_signed(&mut line, self.rc);
        line.append("(");
        line.append(rc_str(self.rc));
        line.append(")");
        if self.extra.as_str().unicode_len() == 0 {
            line.append("");
        } else {
            line.append(" ");
        }
        line.append(self.extra.as_str());
        line
    }
}

/// How a walk over the connectors ended.
#[derive(Debug)]
pub enum RunOutcome {
    /// No driver to ask.
    NoAdl,
    /// The driver could not be started or listed no adapter.
    InitFailed(Vec<OpRecord>),
    /// Every connector was visited. What each call came to is in its record.
    Done(Vec<OpRecord>),
}

impl RunOutcome {
    /// What the outcome's records say.
    pub open spec fn said(self) -> Seq<Record> {
        match self {
            RunOutcome::NoAdl => Seq::empty(),
            RunOutcome::InitFailed(recs) => records_of(recs@),
            RunOutcome::Done(recs) => records_of(recs@),
        }
    }

    pub fn records(&self) -> (recs: &[OpRecord])
        ensures
            records_of(recs@) == self.said(),
    {
        match self {
            RunOutcome::NoAdl => {
                let none: &[OpRecord] = &[];
                assert(records_of(none@) =~= Seq::empty());
                none
            },
            RunOutcome::InitFailed(recs) => recs.as_slice(),
            RunOutcome::Done(recs) => recs.as_slice(),
        }
    }

    /// Everything that was asked for was undone: the driver could be started
    /// and no call failed. Without a driver there is nothing to undo.
    pub open spec fn undone(self) -> bool {
        self !is InitFailed && forall|i: int|
            0 <= i < self.said().len() ==> (#[trigger] self.said()[i]).rc == ADL_OK
    }

    pub fn unlocked(&self) -> (r: bool)
        ensures
            r == self.undone(),
    {
        if let RunOutcome::InitFailed(_) = self {
            return false;
        }
        let recs = self.records();
        let mut i: usize = 0;
        while i < recs.len()
            invariant
                i <= recs@.len(),
                records_of(recs@) == self.said(),
                self !is InitFailed,
                forall|j: int| 0 <= j < i ==> (#[trigger] self.said()[j]).rc == ADL_OK,
            decreases recs@.len() - i,
        {
            assert(self.said()[i as int] == recs@[i as int]@);
            if !recs[i].ok() {
                return false;
            }
            i = i + 1;
        }
        true
    }
}

/// Where `word` first stands in `text` at or behind `n`.
pub open spec fn found_at(text: Seq<char>, word: Seq<char>, n: int) -> Option<int>
    decreases text.len() - n,
{
    if n < 0 || n >= text.len() || n + word.len() > text.len() {
        None
    } else if text.subrange(n, n + word.len()) == word {
        Some(n)
    } else {
        found_at(text, word, n + 1)
    }
}

/// Where a target's connector number ends: at its bracket, at the next
/// connector, or at the end.
pub open spec fn number_end(text: Seq<char>, n: int) -> int
    decreases text.len() - n,
{
    if n < 0 || n >= text.len() || text[n] == '[' {
        n
    } else if n + 9 <= text.len() && text.subrange(n, n + 9) == "connector"@ {
        n
    } else {
        number_end(text, n + 1)
    }
}

/// The connector a target names.
pub open spec fn connector_named(target: Seq<char>) -> Option<int> {
    match found_at(target, "connector"@, 0) {
        Some(at) => number_in(target.subrange(at + 9, number_end(target, at + 9))),
        None => None,
    }
}

fn stands_at(text: &str, n: usize) -> (r: bool)
    requires
        n <= text@.len(),
    ensures
        r == (n + 9 <= text@.len() && text@.subrange(n as int, n + 9) == "connector"@),
{
    let len: usize = text.unicode_len();
    if len - n < 9 {
        return false;
    }
    proof {
        reveal_strlit("connector");
    }
    let r = text.get_char(n) == 'c' && text.get_char(n + 1) == 'o' && text.get_char(n + 2) == 'n'
        && text.get_char(n + 3) == 'n' && text.get_char(n + 4) == 'e' && text.get_char(n + 5)
        == 'c' && text.get_char(n + 6) == 't' && text.get_char(n + 7) == 'o' && text.get_char(n + 8)
        == 'r';
    let ghost part = text@.subrange(n as int, n + 9);
    if r {
        assert(part =~= "connector"@);
    } else {
        assert(part != "connector"@) by {
            if part == "connector"@ {
                assert(part[0] == 'c' && part[1] == 'o' && part[2] == 'n' && part[3] == 'n'
                    && part[4] == 'e' && part[5] == 'c' && part[6] == 't' && part[7] == 'o'
                    && part[8] == 'r');
            }
        }
    }
    r
}

/// The connector a record's target names.
pub fn connector_of(target: &str) -> (c: Option<i32>)
    ensures
        match c {
            Some(c) => connector_named(target@) == Some(c as int),
            None => connector_named(target@) is None,
        },
{
    proof {
        reveal_strlit("connector");
    }
    let len: usize = target.unicode_len();
    let mut at: usize = 0;
    while at < len && !stands_at(target, at)
        invariant
            len == target@.len(),
            at <= len,
            "connector"@.len() == 9,
            found_at(target@, "connector"@, 0) == found_at(target@, "connector"@, at as int),
        decreases len - at,
    {
        at = at + 1;
    }
    if at >= len {
        return None;
    }
    assert(found_at(target@, "connector"@, 0) == Some(at as int));
    let start: usize = at + 9;
    let mut end: usize = start;
    while end < len && target.get_char(end) != '[' && !stands_at(target, end)
        invariant
            len == target@.len(),
            start <= end <= len,
            number_end(target@, start as int) == number_end(target@, end as int),
        decreases len - end,
    {
        end = end + 1;
    }
    parse_number(target.substring_char(start, end))
}

/// The call that turns emulation on.
pub open spec fn pins(r: Record) -> bool {
    r.op == "adl-lock-mode-always"@ && r.rc == ADL_OK
}

/// The connectors whose emulation was turned on, in order: what a lock leased.
pub open spec fn leased_by(recs: Seq<Record>) -> Seq<i32>
    decreases recs.len(),
{
    if recs.len() == 0 {
        Seq::empty()
    } else {
        let before = leased_by(recs.drop_last());
        let r = recs.last();
        match connector_named(r.target) {
            Some(c) => if pins(r) {
                before.push(c as i32)
            } else {
                before
            },
            None => before,
        }
    }
}

/// The lease of a lock, from its records: only these connectors are the
/// stream's to let go.
pub fn leased(outcome: &RunOutcome) -> (connectors: Vec<i32>)
    ensures
        connectors@ == leased_by(outcome.said()),
{
    let recs = outcome.records();
    let mut connectors: Vec<i32> = Vec::new();
    let mut i: usize = 0;
    assert(records_of(recs@).take(0) =~= Seq::empty());
    while i < recs.len()
        invariant
            i <= recs@.len(),
            connectors@ == leased_by(records_of(recs@).take(i as int)),
        decreases recs@.len() - i,
    {
        let ghost all = records_of(recs@);
        assert(all.take(i + 1).drop_last() =~= all.take(i as int));
        assert(all.take(i + 1).last() == recs@[i as int]@);
        if is_mode_always(recs[i].op) && recs[i].ok() {
            if let Some(c) = connector_of(recs[i].target.as_str()) {
                connectors.push(c);
            }
        }
        i = i + 1;
    }
    assert(records_of(recs@).take(recs@.len() as int) =~= records_of(recs@));
    connectors
}

fn same_text(a: &str, b: &str) -> (r: bool)
    ensures
        r == (a@ == b@),
{
    let len: usize = a.unicode_len();
    if b.unicode_len() != len {
        return false;
    }
    let mut i: usize = 0;
    while i < len
        invariant
            len == a@.len() == b@.len(),
            i <= len,
            forall|j: int| 0 <= j < i ==> a@[j] == b@[j],
        decreases len - i,
    {
        if a.get_char(i) != b.get_char(i) {
            assert(a@[i as int] != b@[i as int]);
            return false;
        }
        i = i + 1;
    }
    assert(a@ =~= b@);
    true
}

fn is_mode_always(op: &str) -> (r: bool)
    ensures
        r == (op@ == "adl-lock-mode-always"@),
{
    same_text(op, "adl-lock-mode-always")
}

/// A driver that has no emulation to turn off says so, which is no failure.
/// Removing the pinned data is what clears a pin, and that must succeed.
pub open spec fn expected_noop(r: Record) -> bool {
    r.op == "adl-unlock-mode-off"@ && r.rc == ADL_ERR_NOT_SUPPORTED
}

pub fn is_expected_noop(r: &OpRecord) -> (b: bool)
    ensures
        b == expected_noop(r@),
{
    same_text(r.op, "adl-unlock-mode-off") && r.rc == ADL_ERR_NOT_SUPPORTED
}

/// A record that is worth a warning.
pub open spec fn alarming(r: Record) -> bool {
    r.rc != ADL_OK && !expected_noop(r)
}

/// A record is worth a warning.
pub fn is_alarming(r: &OpRecord) -> (b: bool)
    ensures
        b == alarming(r@),
        b == (r@.rc != ADL_OK && !expected_noop(r@)),
{
    !r.ok() && !is_expected_noop(r)
}

/// What a lock leaves behind.
#[derive(Debug)]
pub struct LockResult {
    /// The connectors to write into the marker. None removes the marker.
    pub lease: Option<Vec<i32>>,
    /// An unlock is owed.
    pub owed: bool,
}

/// `r` is what follows from a lock's walk.
pub open spec fn follows_lock(outcome: RunOutcome, r: LockResult) -> bool {
    &&& r.owed == (outcome !is NoAdl)
    &&& match r.lease {
        Some(connectors) => outcome !is NoAdl && connectors@ == leased_by(outcome.said()),
        None => outcome is NoAdl,
    }
}

/// What follows from a lock's walk. With a driver an unlock is owed however
/// the walk went: a part of it may have pinned something.
pub fn lock_for_stream(outcome: &RunOutcome) -> (r: LockResult)
    ensures
        follows_lock(*outcome, r),
        r.owed == (outcome !is NoAdl),
        match r.lease {
            Some(connectors) => outcome !is NoAdl && connectors@ == leased_by(outcome.said()),
            None => outcome is NoAdl,
        },
{
    if let RunOutcome::NoAdl = outcome {
        return LockResult { lease: None, owed: false };
    }
    LockResult { lease: Some(leased(outcome)), owed: true }
}

/// Which connectors an unlock walks: the leased ones, each by itself, or all
/// at once where no lease says which.
pub open spec fn unlock_walks(lease: Seq<i32>) -> Seq<Option<i32>> {
    if lease.len() == 0 {
        seq![None]
    } else {
        lease.map_values(|c: i32| Some(c))
    }
}

pub fn unlock_after_stream(lease: &Vec<i32>) -> (walks: Vec<Option<i32>>)
    ensures
        walks@ == unlock_walks(lease@),
{
    let mut walks: Vec<Option<i32>> = Vec::new();
    if lease.len() == 0 {
        walks.push(None);
        assert(walks@ =~= unlock_walks(lease@));
        return walks;
    }
    let mut i: usize = 0;
    while i < lease.len()
        invariant
            i <= lease@.len(),
            walks@.len() == i,
            forall|j: int| 0 <= j < i ==> walks@[j] == Some(lease@[j]),
        decreases lease@.len() - i,
    {
        walks.push(Some(lease[i]));
        i = i + 1;
    }
    assert(walks@ =~= unlock_walks(lease@));
    walks
}

/// Every walk undid what it was asked to.
pub open spec fn all_undone(outcomes: Seq<RunOutcome>) -> bool {
    forall|i: int| 0 <= i < outcomes.len() ==> (#[trigger] outcomes[i]).undone()
}

/// The marker may go: every walk undid what it was asked to. It is the only
/// record that a connector is still pinned, so one failure keeps it.
pub fn marker_may_go(outcomes: &Vec<RunOutcome>) -> (r: bool)
    ensures
        r == all_undone(outcomes@),
        r == (forall|i: int| 0 <= i < outcomes@.len() ==> (#[trigger] outcomes@[i]).undone()),
{
    let mut i: usize = 0;
    while i < outcomes.len()
        invariant
            i <= outcomes@.len(),
            forall|j: int| 0 <= j < i ==> (#[trigger] outcomes@[j]).undone(),
        decreases outcomes@.len() - i,
    {
        if !outcomes[i].unlocked() {
            assert(!outcomes@[i as int].undone());
            return false;
        }
        i = i + 1;
    }
    true
}

/// A host that starts and finds a marker has pins to let go.
#[verifier::allow_in_spec]
pub fn startup_recover(marker_exists: bool) -> bool
    returns
        marker_exists,
{
    marker_exists
}

/// An unlock lets go of the connectors a lock leased and of no others, as
/// long as there is a lease.
pub proof fn law_only_the_lease_is_walked(lease: Seq<i32>, c: i32)
    requires
        lease.len() > 0,
    ensures
        unlock_walks(lease).contains(Some(c)) <==> lease.contains(c),
        !unlock_walks(lease).contains(None),
{
    let walks = unlock_walks(lease);
    if lease.contains(c) {
        let i = choose|i: int| 0 <= i < lease.len() && lease[i] == c;
        assert(walks[i] == Some(c));
    }
    if walks.contains(Some(c)) {
        let i = choose|i: int| 0 <= i < walks.len() && walks[i] == Some(c);
        assert(lease[i] == c);
    }
    if walks.contains(None::<i32>) {
        let i = choose|i: int| 0 <= i < walks.len() && walks[i] == None::<i32>;
        assert(walks[i] == Some(lease[i]));
    }
}

/// Each return code has its name, and any other has none.
pub proof fn law_a_code_has_its_name(rc: i32)
    ensures
        rc == 0 ==> rc_name(rc) == "ADL_OK"@,
        rc == 1 || rc == 2 || rc == 3 || rc == 4 ==> rc_name(rc) == "ADL_OK_(warning-class)"@,
        rc == -1 ==> rc_name(rc) == "ADL_ERR"@,
        rc == -2 ==> rc_name(rc) == "ADL_ERR_NOT_INIT"@,
        rc == -3 ==> rc_name(rc) == "ADL_ERR_INVALID_PARAM"@,
        rc == -5 ==> rc_name(rc) == "ADL_ERR_INVALID_ADL_IDX"@,
        rc == -8 ==> rc_name(rc) == "ADL_ERR_NOT_SUPPORTED"@,
        rc == -9 ==> rc_name(rc) == "ADL_ERR_NULL_POINTER"@,
        rc == -10 ==> rc_name(rc) == "ADL_ERR_DISABLED_ADAPTER"@,
        rc == -22 ==> rc_name(rc) == "ADL_ERR_CALL_TO_INCOMPATIABLE_DRIVER"@,
        rc == -23 ==> rc_name(rc) == "ADL_ERR_NO_ADMINISTRATOR_PRIVILEGES"@,
        rc > 4 || rc < -23 || -22 < rc < -10 || rc == -4 || rc == -6 || rc == -7 ==> rc_name(rc)
            == "?"@,
{
}

/// Each kind of connector has its name, and any other is unknown.
pub proof fn law_a_connector_has_its_kind(t: i32)
    ensures
        t == 1 ==> connector_type_name(t) == "VGA"@,
        t == 2 ==> connector_type_name(t) == "DVI-D"@,
        t == 3 ==> connector_type_name(t) == "DVI-I"@,
        t == 8 ==> connector_type_name(t) == "HDMI-A"@,
        t == 9 ==> connector_type_name(t) == "HDMI-B"@,
        t == 10 ==> connector_type_name(t) == "DP"@,
        t == 11 ==> connector_type_name(t) == "eDP"@,
        t == 12 ==> connector_type_name(t) == "miniDP"@,
        t == 13 ==> connector_type_name(t) == "VIRTUAL"@,
        t == 14 ==> connector_type_name(t) == "USB-C"@,
        t < 1 || 3 < t < 8 || t > 14 ==> connector_type_name(t) == "unknown"@,
{
}

/// A log line says the call, its target, its time, whether it went well, and
/// the code with its name; what is extra stands behind a blank.
pub proof fn law_a_line_says_its_record(r: Record)
    ensures
        ({
            let head = r.op + " "@ + r.target + " took_ms="@ + decimal(r.took_ms as nat) + " ok="@;
            let good = head + "true"@ + " rc="@ + signed(0) + "("@ + "ADL_OK"@ + ")"@;
            let bad = head + "false"@ + " rc="@ + signed(r.rc as int) + "("@ + rc_name(r.rc) + ")"@;
            &&& r.rc == 0 && r.extra.len() == 0 ==> log_line(r) == good
            &&& r.rc == 0 && r.extra.len() > 0 ==> log_line(r) == good + " "@ + r.extra
            &&& r.rc != 0 && r.extra.len() == 0 ==> log_line(r) == bad
            &&& r.rc != 0 && r.extra.len() > 0 ==> log_line(r) == bad + " "@ + r.extra
        }),
{
    reveal_strlit("");
    let head = r.op + " "@ + r.target + " took_ms="@ + decimal(r.took_ms as nat) + " ok="@;
    let good = head + "true"@ + " rc="@ + signed(0) + "("@ + "ADL_OK"@ + ")"@;
    let bad = head + "false"@ + " rc="@ + signed(r.rc as int) + "("@ + rc_name(r.rc) + ")"@;
    if r.extra.len() == 0 {
        assert(good + ""@ + r.extra =~= good);
        assert(bad + ""@ + r.extra =~= bad);
    }
}

/// Without a driver nothing is said, and nothing is left to undo; one that
/// could not be started undid nothing; a walk that got through undid what it
/// was asked to where no call failed.
pub proof fn law_undone_is_said_by_every_record(recs: Vec<OpRecord>, i: int)
    ensures
        RunOutcome::NoAdl.said().len() == 0 && RunOutcome::NoAdl.undone(),
        !RunOutcome::InitFailed(recs).undone(),
        RunOutcome::Done(recs).said() == records_of(recs@),
        RunOutcome::InitFailed(recs).said() == records_of(recs@),
        0 <= i < recs@.len() && recs@[i].rc != 0 ==> !RunOutcome::Done(recs).undone(),
        (forall|j: int| 0 <= j < recs@.len() ==> (#[trigger] recs@[j]).rc == 0)
            ==> RunOutcome::Done(recs).undone(),
{
    let o = RunOutcome::Done(recs);
    if 0 <= i < recs@.len() {
        assert(o.said()[i].rc == recs@[i].rc);
    }
    if forall|j: int| 0 <= j < recs@.len() ==> (#[trigger] recs@[j]).rc == 0 {
        assert forall|j: int| 0 <= j < o.said().len() implies (#[trigger] o.said()[j]).rc == ADL_OK by {
            assert(recs@[j].rc == 0);
        }
    }
}

/// A word is found at the first place where it stands, and not at all where it
/// stands nowhere.
pub proof fn law_a_word_is_found_where_it_first_stands(text: Seq<char>, word: Seq<char>, n: int)
    requires
        0 <= n,
        word.len() > 0,
    ensures
        found_at(text, word, n) matches Some(at) ==> {
            &&& n <= at && at + word.len() <= text.len()
            &&& text.subrange(at, at + word.len()) == word
            &&& forall|m: int| n <= m < at ==> #[trigger] text.subrange(m, m + word.len()) != word
        },
        found_at(text, word, n) is None ==> forall|m: int|
            n <= m && m + word.len() <= text.len() ==> #[trigger] text.subrange(m, m + word.len())
                != word,
    decreases text.len() - n,
{
    if n < text.len() && n + word.len() <= text.len() && text.subrange(n, n + word.len()) != word {
        law_a_word_is_found_where_it_first_stands(text, word, n + 1);
    }
}

/// The lease is what was pinned: a record adds its connector where emulation
/// was turned on and the driver said that it was, and nothing otherwise.
pub proof fn law_a_lease_grows_by_what_was_pinned(recs: Seq<Record>, r: Record)
    ensures
        leased_by(Seq::empty()).len() == 0,
        r.op != "adl-lock-mode-always"@ || r.rc != 0 || connector_named(r.target) is None
            ==> leased_by(recs.push(r)) == leased_by(recs),
        r.op == "adl-lock-mode-always"@ && r.rc == 0 ==> (connector_named(r.target) matches Some(c)
            ==> {
            let lease = leased_by(recs.push(r));
            &&& lease.len() == leased_by(recs).len() + 1
            &&& lease.last() == c
            &&& lease.drop_last() == leased_by(recs)
        }),
{
    assert(recs.push(r).drop_last() =~= recs);
    if r.op == "adl-lock-mode-always"@ && r.rc == 0 && connector_named(r.target) is Some {
        assert(leased_by(recs.push(r)).drop_last() =~= leased_by(recs));
    }
}

/// A failure is worth a warning, unless it is a driver that has no emulation
/// to turn off.
pub proof fn law_a_failure_is_worth_a_warning(r: Record)
    ensures
        r.rc == 0 ==> !alarming(r),
        r.rc != 0 && r.op != "adl-unlock-mode-off"@ ==> alarming(r),
        r.rc != 0 && r.rc != -8 ==> alarming(r),
        r.rc == -8 && r.op == "adl-unlock-mode-off"@ ==> !alarming(r),
{
}

/// A lock owes an unlock and writes its lease down wherever there is a driver,
/// however it went; without one it owes nothing.
pub proof fn law_a_lock_owes_an_unlock(outcome: RunOutcome, r: LockResult)
    requires
        follows_lock(outcome, r),
    ensures
        outcome is NoAdl ==> !r.owed && r.lease is None,
        !(outcome is NoAdl) ==> r.owed && (r.lease matches Some(c) && c@ == leased_by(
            outcome.said(),
        )),
{
}

/// An unlock walks each leased connector in turn, or all at once where none is
/// leased; the marker stays for one walk that did not undo its part.
pub proof fn law_an_unlock_walks_its_lease(
    lease: Seq<i32>,
    outcomes: Seq<RunOutcome>,
    i: int,
    found: bool,
)
    ensures
        lease.len() == 0 ==> unlock_walks(lease).len() == 1 && unlock_walks(lease)[0] is None,
        lease.len() > 0 ==> unlock_walks(lease).len() == lease.len(),
        0 <= i < lease.len() ==> unlock_walks(lease)[i] == Some(lease[i]),
        0 <= i < outcomes.len() && !outcomes[i].undone() ==> !all_undone(outcomes),
        outcomes.len() == 0 ==> all_undone(outcomes),
        startup_recover(found) == found,
{
}

} // verus!
