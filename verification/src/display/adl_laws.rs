//! What holds of every walk over the connectors.

use super::adl_emul::{
    connector_named, connector_type_name, found_at, leased_by, number_end, pins, EmulAction,
    Record, RunOutcome, ADL_OK,
};
use super::adl_walk::{
    adapter_target, came_to, connector_target, data_extra, first_call, has_bit, has_bus, plain,
    seen_record, seen_records, shape, shapes, state_extra, to_visit, to_walk, walkable,
    AdapterView, Call, Connector, Next, WalkView, ADL_EMUL_MODE_ALWAYS,
    ADL_EMUL_STATUS_REAL_DEVICE_CONNECTED, AMD_VENDOR_ID,
};
use crate::text::{
    hex_text, is_digit, law_a_number_reads_back, lemma_signed_chars, signed, truth,
};
use vstd::prelude::*;
use vstd::string::*;

verus! {

/// The call changes something at the driver.
pub open spec fn writes(next: Next) -> bool {
    next matches Next::Call(call) && (call is Pin || call is Mode || call is Remove)
}

/// A probe reads only, whatever the driver answers.
pub proof fn law_a_probe_never_writes(
    w: WalkView,
    own: bool,
    took_ms: u64,
    rc: i32,
    a: i32,
    b: i32,
    c: i32,
    adapters: Seq<AdapterView>,
    connectors: Seq<Connector>,
)
    requires
        w.action == EmulAction::Probe,
    ensures
        !writes(w.created(took_ms, rc).1),
        !writes(w.counted(rc, a).1),
        !writes(w.listed(rc, adapters).1),
        !writes(w.capable(took_ms, rc, a).1),
        !writes(w.laid_out(took_ms, rc, a, b, connectors).1),
        !writes(w.stated(took_ms, rc, a, b, c).1),
        !writes(w.has_read(own, took_ms, rc, a, b).1),
{
}

/// A lock without a filter leaves alone what was pinned before it, and what
/// has no sink: nothing is read there, and nothing is written.
pub proof fn law_a_lock_leaves_the_operators_pins(
    w: WalkView,
    took_ms: u64,
    rc: i32,
    status: i32,
    mode: i32,
    display: i32,
)
    requires
        w.action == EmulAction::Lock,
        w.filter is None,
        mode == ADL_EMUL_MODE_ALWAYS || !has_bit(status, ADL_EMUL_STATUS_REAL_DEVICE_CONNECTED),
    ensures
        ({
            let (after, next) = w.stated(took_ms, rc, status, mode, display);
            &&& !writes(next)
            &&& !(next matches Next::Call(call) && call is Read)
            &&& w.recs.len() < after.recs.len()
            &&& after.port == w.port + 1
        }),
{
}

/// The walk stops the driver exactly if it was started.
pub proof fn law_what_was_started_is_stopped(
    w: WalkView,
    own: bool,
    took_ms: u64,
    rc: i32,
    a: i32,
    b: i32,
    c: i32,
    adapters: Seq<AdapterView>,
    connectors: Seq<Connector>,
)
    ensures
        w.created(took_ms, rc).1 matches Next::Over { destroy, done } ==> !destroy && !done && rc
            != ADL_OK,
        w.counted(rc, a).1 matches Next::Over { destroy, done } ==> destroy,
        w.listed(rc, adapters).1 matches Next::Over { destroy, done } ==> destroy,
        w.laid_out(took_ms, rc, a, b, connectors).1 matches Next::Over { destroy, done } ==> destroy
            && done,
        w.stated(took_ms, rc, a, b, c).1 matches Next::Over { destroy, done } ==> destroy && done,
        w.has_read(own, took_ms, rc, a, b).1 matches Next::Over { destroy, done } ==> destroy && done,
        w.moded(took_ms, rc).1 matches Next::Over { destroy, done } ==> destroy && done,
        w.removed(took_ms, rc).1 matches Next::Over { destroy, done } ==> destroy && done,
{
}

/// Only the vendor's adapters are walked, each bus once; what writes needs
/// the adapter present.
pub proof fn law_each_board_is_walked_once(
    adapters: Seq<AdapterView>,
    action: EmulAction,
    i: int,
    j: int,
)
    requires
        0 <= i < j < to_walk(adapters, action).len(),
    ensures
        to_walk(adapters, action)[i].bus != to_walk(adapters, action)[j].bus,
        walkable(to_walk(adapters, action)[i], action),
        walkable(to_walk(adapters, action)[j], action),
        action != EmulAction::Probe ==> to_walk(adapters, action)[i].present != 0,
        to_walk(adapters, action)[i].vendor == AMD_VENDOR_ID,
    decreases adapters.len(),
{
    lemma_walked_are_walkable(adapters, action, i);
    lemma_walked_are_walkable(adapters, action, j);
    let fewer = adapters.drop_last();
    let before = to_walk(fewer, action);
    let all = to_walk(adapters, action);
    if j < before.len() {
        law_each_board_is_walked_once(fewer, action, i, j);
        assert(all[i] == before[i] && all[j] == before[j]);
    } else {
        assert(!has_bus(before, adapters.last().bus));
        assert(before[i].bus != adapters.last().bus);
    }
}

proof fn lemma_walked_are_walkable(adapters: Seq<AdapterView>, action: EmulAction, i: int)
    requires
        0 <= i < to_walk(adapters, action).len(),
    ensures
        walkable(to_walk(adapters, action)[i], action),
    decreases adapters.len(),
{
    let fewer = adapters.drop_last();
    let before = to_walk(fewer, action);
    if i < before.len() {
        lemma_walked_are_walkable(fewer, action, i);
        assert(to_walk(adapters, action)[i] == before[i]);
    }
}

/// A walk for one connector visits no other.
pub proof fn law_a_filter_is_kept(connectors: Seq<Connector>, want: i32, i: int)
    requires
        0 <= i < to_visit(connectors, Some(want)).len(),
    ensures
        to_visit(connectors, Some(want))[i].index == want,
    decreases connectors.len(),
{
    let fewer = connectors.drop_last();
    let before = to_visit(fewer, Some(want));
    if i < before.len() {
        law_a_filter_is_kept(fewer, want, i);
        assert(to_visit(connectors, Some(want))[i] == before[i]);
    }
}

/// A walk without a filter visits every connector, in order.
pub proof fn law_no_filter_visits_all(connectors: Seq<Connector>)
    ensures
        to_visit(connectors, None) == connectors,
    decreases connectors.len(),
{
    if connectors.len() > 0 {
        law_no_filter_visits_all(connectors.drop_last());
        assert(connectors.drop_last().push(connectors.last()) =~= connectors);
    } else {
        assert(to_visit(connectors, None) =~= connectors);
    }
}

proof fn lemma_skips_to(text: Seq<char>, word: Seq<char>, n: int, at: int)
    requires
        0 <= n <= at < text.len(),
        word.len() > 0,
        at + word.len() <= text.len(),
        text.subrange(at, at + word.len()) == word,
        forall|i: int| n <= i < at ==> text[i] != word[0],
    ensures
        found_at(text, word, n) == Some(at),
    decreases at - n,
{
    if n < at {
        assert(text.subrange(n, n + word.len()) != word) by {
            assert(text.subrange(n, n + word.len())[0] == text[n]);
        }
        lemma_skips_to(text, word, n + 1, at);
    }
}

proof fn lemma_number_runs_to(text: Seq<char>, n: int, end: int)
    requires
        0 <= n <= end < text.len(),
        text[end] == '[',
        forall|i: int| n <= i < end ==> (is_digit(#[trigger] text[i]) || text[i] == '-'),
    ensures
        number_end(text, n) == end,
    decreases end - n,
{
    if n < end {
        reveal_strlit("connector");
        assert(is_digit(text[n]) || text[n] == '-');
        if n + 9 <= text.len() {
            assert(text.subrange(n, n + 9)[0] == text[n]);
        }
        lemma_number_runs_to(text, n + 1, end);
    }
}

/// The name a connector has in the records says which connector it is.
pub proof fn law_a_target_names_its_connector(adapter: i32, c: Connector)
    ensures
        connector_named(connector_target(adapter, c)) == Some(c.index as int),
{
    reveal_strlit("adapter");
    reveal_strlit(".connector");
    reveal_strlit("connector");
    reveal_strlit("[");
    let text = connector_target(adapter, c);
    let head = "adapter"@;
    let number = signed(adapter as int);
    let dot = ".connector"@;
    let own = signed(c.index as int);
    let tail = "["@ + connector_type_name(c.kind) + "]"@;
    assert(text =~= head + number + dot + own + tail);
    let at: int = (head.len() + number.len() + 1) as int;
    let word = "connector"@;
    assert(text.subrange(at, at + word.len()) =~= word) by {
        assert forall|i: int| 0 <= i < 9 implies text[at + i] == word[i] by {
            assert(text[at + i] == dot[1 + i]);
        }
    }
    assert forall|i: int| 0 <= i < at implies text[i] != word[0] by {
        if i < head.len() {
            assert(text[i] == head[i]);
        } else if i < head.len() + number.len() {
            assert(text[i] == number[i - head.len()]);
            lemma_signed_chars(adapter as int, i - head.len());
        } else {
            assert(text[i] == dot[0]);
        }
    }
    lemma_skips_to(text, word, 0, at);
    let start = at + 9;
    let end = start + own.len();
    assert(text[end] == tail[0]);
    assert(tail[0] == '[');
    assert forall|i: int| start <= i < end implies (is_digit(#[trigger] text[i]) || text[i]
        == '-') by {
        assert(text[i] == own[i - start]);
        lemma_signed_chars(c.index as int, i - start);
    }
    lemma_number_runs_to(text, start, end);
    assert(text.subrange(start, end) =~= own);
    law_a_number_reads_back(c.index);
}

proof fn lemma_lease_grows(recs: Seq<Record>, r: Record)
    ensures
        leased_by(recs.push(r)) == match connector_named(r.target) {
            Some(c) => if pins(r) {
                leased_by(recs).push(c as i32)
            } else {
                leased_by(recs)
            },
            None => leased_by(recs),
        },
{
    assert(recs.push(r).drop_last() =~= recs);
}

/// The lease is what the lock pinned: a connector enters it exactly when its
/// emulation was turned on, and the driver said that it was.
pub proof fn law_the_lease_is_what_was_pinned(w: WalkView, took_ms: u64, rc: i32)
    requires
        w.action == EmulAction::Lock,
        w.at_connector(),
    ensures
        leased_by(w.moded(took_ms, rc).0.recs) == if rc == ADL_OK {
            leased_by(w.recs).push(w.connector().index)
        } else {
            leased_by(w.recs)
        },
{
    let r = plain("adl-lock-mode-always"@, w.target(), took_ms, rc);
    lemma_lease_grows(w.recs, r);
    law_a_target_names_its_connector(w.adapter().index, w.connector());
    assert(w.moded(took_ms, rc).0.recs == w.recs.push(r));
}

/// No other step of a lock touches the lease.
pub proof fn law_reading_leases_nothing(
    w: WalkView,
    own: bool,
    took_ms: u64,
    rc: i32,
    a: i32,
    b: i32,
    c: i32,
)
    requires
        w.at_connector(),
    ensures
        leased_by(w.stated(took_ms, rc, a, b, c).0.recs) == leased_by(w.recs),
        leased_by(w.has_read(own, took_ms, rc, a, b).0.recs) == leased_by(w.recs),
        leased_by(w.pinned(took_ms, rc).0.recs) == leased_by(w.recs),
        leased_by(w.removed(took_ms, rc).0.recs) == leased_by(w.recs),
{
    reveal_strlit("adl-lock-mode-always");
    reveal_strlit("adl-conn-state");
    reveal_strlit("adl-lock-skip-preexisting");
    reveal_strlit("adl-conn-data");
    reveal_strlit("adl-lock-read");
    reveal_strlit("adl-lock-set");
    reveal_strlit("adl-unlock-remove");
    let always = "adl-lock-mode-always"@;
    assert(always.len() == 20);
    assert("adl-conn-state"@.len() == 14);
    assert("adl-lock-skip-preexisting"@.len() == 25);
    assert("adl-conn-data"@.len() == 13);
    assert("adl-lock-read"@.len() == 13);
    assert("adl-lock-set"@.len() == 12);
    assert("adl-unlock-remove"@.len() == 17);
    let s = w.stated(took_ms, rc, a, b, c).0.recs;
    lemma_lease_grows(w.recs, s[w.recs.len() as int]);
    let one = w.recs.push(s[w.recs.len() as int]);
    if s.len() == w.recs.len() + 1 {
        assert(s =~= one);
    } else {
        lemma_lease_grows(one, s[w.recs.len() as int + 1]);
        assert(s =~= one.push(s[w.recs.len() as int + 1]));
    }
    let d = w.has_read(own, took_ms, rc, a, b).0.recs;
    if d.len() > w.recs.len() {
        lemma_lease_grows(w.recs, d[w.recs.len() as int]);
        assert(d =~= w.recs.push(d[w.recs.len() as int]));
    }
    let p = w.pinned(took_ms, rc).0.recs;
    lemma_lease_grows(w.recs, p[w.recs.len() as int]);
    assert(p =~= w.recs.push(p[w.recs.len() as int]));
    let q = w.removed(took_ms, rc).0.recs;
    lemma_lease_grows(w.recs, q[w.recs.len() as int]);
    assert(q =~= w.recs.push(q[w.recs.len() as int]));
}

/// A walk begins with nothing noted and starts the driver; it ends with all
/// that was noted, as done or as failed.
pub proof fn law_a_walk_begins_and_ends(
    action: EmulAction,
    filter: Option<i32>,
    recs: Seq<Record>,
    done: bool,
    outcome: RunOutcome,
)
    requires
        came_to(recs, done, outcome),
    ensures
        ({
            let w = WalkView::fresh(action, filter);
            &&& w.action == action && w.filter == filter && w.recs.len() == 0
            &&& !w.at_adapter() && !w.at_connector()
        }),
        first_call() == Next::Call(Call::Create),
        outcome.said() == recs,
        outcome is Done <==> done,
        outcome is InitFailed <==> !done,
{
}

/// An adapter is walked where it is the vendor's and present, or is a probe's
/// and has a bus; a bus that was picked is not picked again, and every bus with
/// such an adapter is.
pub proof fn law_an_adapter_is_walked_by_its_bus(
    adapters: Seq<AdapterView>,
    a: AdapterView,
    action: EmulAction,
)
    ensures
        to_walk(Seq::empty(), action).len() == 0,
        ({
            let before = to_walk(adapters, action);
            let after = to_walk(adapters.push(a), action);
            let fits = a.vendor == 1002 && (a.present != 0 || (action == EmulAction::Probe && a.bus
                >= 0));
            let taken = exists|i: int| 0 <= i < before.len() && (#[trigger] before[i]).bus == a.bus;
            &&& !fits || taken ==> after == before
            &&& fits && !taken ==> after == before.push(a)
        }),
{
    assert(adapters.push(a).drop_last() =~= adapters);
}

/// A connector is visited where none is asked for, or where it is the one.
pub proof fn law_a_connector_is_visited_in_turn(
    connectors: Seq<Connector>,
    c: Connector,
    want: i32,
)
    ensures
        to_visit(Seq::empty(), Some(want)).len() == 0,
        to_visit(connectors.push(c), None) == to_visit(connectors, None).push(c),
        c.index == want ==> to_visit(connectors.push(c), Some(want)) == to_visit(
            connectors,
            Some(want),
        ).push(c),
        c.index != want ==> to_visit(connectors.push(c), Some(want)) == to_visit(
            connectors,
            Some(want),
        ),
{
    assert(connectors.push(c).drop_last() =~= connectors);
}

/// One record is left of each shape an adapter has, by bus, vendor and
/// presence: the first of it, under its bus, with what it was.
pub proof fn law_each_shape_is_seen_once(adapters: Seq<AdapterView>, a: AdapterView)
    ensures
        seen_records(Seq::empty()).len() == 0,
        shapes(adapters).contains((a.bus, a.vendor, a.present)) ==> seen_records(adapters.push(a))
            == seen_records(adapters) && shapes(adapters.push(a)) == shapes(adapters),
        !shapes(adapters).contains((a.bus, a.vendor, a.present)) ==> seen_records(adapters.push(a))
            == seen_records(adapters).push(seen_record(a)) && shapes(adapters.push(a)) == shapes(
            adapters,
        ).push((a.bus, a.vendor, a.present)),
        seen_record(a).op == "adl-adapter-seen"@ && seen_record(a).rc == 0 && seen_record(a).took_ms
            == 0,
        seen_record(a).target == "bus"@ + signed(a.bus as int),
        seen_record(a).extra == "vendor_id="@ + signed(a.vendor as int) + " present="@ + signed(
            a.present as int,
        ) + " name="@ + a.name,
{
    assert(adapters.push(a).drop_last() =~= adapters);
    assert(shape(a) == (a.bus, a.vendor, a.present));
    let left = "vendor_id="@ + signed(a.vendor as int);
    assert((left + (" present="@ + signed(a.present as int))) + " name="@ + a.name =~= left
        + " present="@ + signed(a.present as int) + " name="@ + a.name);
}

/// After a connector comes the next of its adapter, then the next adapter, and
/// after the last of them the end.
pub proof fn law_a_walk_goes_on_in_order(w: WalkView)
    requires
        w.at_connector(),
    ensures
        ({
            let (after, next) = w.onward();
            &&& w.port + 1 < w.connectors.len() ==> after.at == w.at && after.port == w.port + 1 && (
            next matches Next::Call(Call::State { adapter, connector }) && adapter
                == w.adapters[w.at].index && connector == w.connectors[w.port + 1].index)
            &&& w.port + 1 == w.connectors.len() && w.at + 1 < w.adapters.len() ==> after.at == w.at
                + 1 && next == Next::Call(Call::Caps(w.adapters[w.at + 1].index))
            &&& w.port + 1 == w.connectors.len() && w.at + 1 == w.adapters.len() ==> (
            next matches Next::Over { destroy, done } && destroy && done)
            &&& after.recs == w.recs && after.adapters == w.adapters && after.connectors
                == w.connectors && after.action == w.action && after.filter == w.filter
        }),
{
}

/// The driver is started, its adapters counted, then listed: each in turn, and
/// a failure ends the walk. Each answer that is noted is noted with its code.
pub proof fn law_a_driver_is_asked_in_order(
    w: WalkView,
    took_ms: u64,
    rc: i32,
    count: i32,
    adapters: Seq<AdapterView>,
)
    ensures
        ({
            let (after, next) = w.created(took_ms, rc);
            let r = after.recs.last();
            &&& after.recs.len() == w.recs.len() + 1 && r.op == "adl-init"@ && r.target
                == "atiadlxx"@ && r.took_ms == took_ms && r.rc == rc
            &&& rc == 0 <==> next == Next::Call(Call::Count)
            &&& rc != 0 <==> next == (Next::Over { destroy: false, done: false })
        }),
        ({
            let (after, next) = w.counted(rc, count);
            let r = after.recs.last();
            let good = rc == 0 && count > 0;
            &&& good ==> next == Next::Call(Call::Adapters(count)) && after.count == count
                && after.recs == w.recs
            &&& !good ==> next == (Next::Over { destroy: true, done: false }) && after.recs.len()
                == w.recs.len() + 1 && r.op == "adl-num-adapters"@ && r.target == "all"@ && r.rc
                == rc && r.extra == "count="@ + signed(count as int)
        }),
        ({
            let (after, next) = w.listed(rc, adapters);
            let r = after.recs[w.recs.len() as int];
            let picked = to_walk(adapters, w.action);
            &&& r.op == "adl-adapters"@ && r.target == "all"@ && r.rc == rc && r.extra == "count="@
                + signed(w.count as int)
            &&& rc != 0 ==> next == (Next::Over { destroy: true, done: false }) && after.recs.len()
                == w.recs.len() + 1
            &&& rc == 0 ==> after.adapters == picked && after.at == 0 && after.recs.len()
                == w.recs.len() + 1 + seen_records(adapters).len()
            &&& rc == 0 && picked.len() > 0 ==> next == Next::Call(Call::Caps(picked[0].index))
            &&& rc == 0 && picked.len() == 0 ==> next == (Next::Over { destroy: true, done: true })
        }),
{
}

/// An adapter is asked what it can do, then for its connectors, whatever it
/// can; what a failed call listed is not believed, and the first connector to
/// visit is read first.
pub proof fn law_an_adapter_is_asked_in_order(
    w: WalkView,
    took_ms: u64,
    rc: i32,
    supported: i32,
    flags: i32,
    count: i32,
    connectors: Seq<Connector>,
)
    requires
        w.at_adapter(),
    ensures
        ({
            let (after, next) = w.capable(took_ms, rc, supported);
            let r = after.recs.last();
            &&& next == Next::Call(Call::Layout(w.adapters[w.at].index))
            &&& after.recs.len() == w.recs.len() + 1 && r.op == "adl-edid-caps"@ && r.target
                == adapter_target(w.adapters[w.at]) && r.took_ms == took_ms && r.rc == rc && r.extra
                == "supported="@ + signed(supported as int)
        }),
        ({
            let (after, next) = w.laid_out(took_ms, rc, flags, count, connectors);
            let r = after.recs.last();
            let listed = to_visit(connectors, w.filter);
            let believed = rc == 0 && count > 0;
            &&& after.recs.len() == w.recs.len() + 1 && r.op == "adl-board-layout"@ && r.target
                == adapter_target(w.adapters[w.at]) && r.took_ms == took_ms && r.rc == rc && r.extra
                == "connectors="@ + signed(count as int) + " valid_flags="@ + hex_text(flags)
            &&& believed ==> after.connectors == listed
            &&& !believed ==> after.connectors.len() == 0
            &&& after.port == 0
            &&& believed && listed.len() > 0 ==> after.at == w.at && (
            next matches Next::Call(Call::State { adapter, connector }) && adapter
                == w.adapters[w.at].index && connector == listed[0].index)
            &&& !believed || listed.len() == 0 ==> after.at == w.at + 1
        }),
        adapter_target(w.adapters[w.at]) == "adapter"@ + signed(w.adapters[w.at].index as int)
            + "["@ + w.adapters[w.at].name + "]"@,
{
    let count_text = "connectors="@ + signed(count as int);
    assert(count_text + " valid_flags="@ + "0x"@ + crate::text::hexadecimal(
        crate::text::same_bits(flags),
    ) =~= count_text + " valid_flags="@ + hex_text(flags));
}

/// A connector's state says what to do next. A failed read goes on. A probe
/// reads the sink's own data; an unlock turns emulation off; a lock reads it
/// too, but without a filter passes over a connector with no sink, and over one
/// that is pinned already, which it notes.
pub proof fn law_a_state_says_what_comes_next(
    w: WalkView,
    took_ms: u64,
    rc: i32,
    status: i32,
    mode: i32,
    display: i32,
)
    requires
        w.at_connector(),
    ensures
        ({
            let (after, next) = w.stated(took_ms, rc, status, mode, display);
            let r = after.recs[w.recs.len() as int];
            let skips = w.action == EmulAction::Lock && w.filter is None && (status & 1 == 0);
            let pinned = w.action == EmulAction::Lock && w.filter is None && mode == 3;
            let reads = next matches Next::Call(Call::Read { adapter, connector, own }) && adapter
                == w.adapter().index && connector == w.connector().index && own;
            &&& r.op == "adl-conn-state"@ && r.target == w.target() && r.took_ms == took_ms && r.rc
                == rc && r.extra == state_extra(status, mode, display)
            &&& rc != 0 || skips ==> after.recs.len() == w.recs.len() + 1 && after.port == w.port + 1
            &&& rc == 0 && w.action == EmulAction::Probe ==> reads && after.port == w.port
            &&& rc == 0 && w.action == EmulAction::Unlock ==> (next matches Next::Call(
                Call::Mode { adapter, connector, mode: m },
            ) && adapter == w.adapter().index && connector == w.connector().index && m == 0)
            &&& rc == 0 && w.action == EmulAction::Lock && !skips && !pinned ==> reads && after.port
                == w.port
            &&& rc == 0 && !skips && pinned ==> after.port == w.port + 1 && after.recs.len()
                == w.recs.len() + 2 && after.recs.last().op == "adl-lock-skip-preexisting"@
                && after.recs.last().target == w.target() && after.recs.last().rc == 0
                && after.recs.last().extra == "mode="@ + signed(mode as int)
        }),
{
}

/// What a state says: its bits in hexadecimal, whether a sink is connected, an
/// emulated one is there and in use, its mode and its display.
pub proof fn law_a_state_is_spelled_out(status: i32, mode: i32, display: i32)
    ensures
        state_extra(status, mode, display) == "status="@ + hex_text(status) + " real_connected="@
            + truth(status & 1 != 0) + " emulated_present="@ + truth(status & 2 != 0)
            + " emulated_used="@ + truth(status & 4 != 0) + " mode="@ + signed(mode as int)
            + " display="@ + signed(display as int),
{
    assert("status="@ + "0x"@ + crate::text::hexadecimal(crate::text::same_bits(status))
        =~= "status="@ + hex_text(status));
}

/// A read without a lock is noted and goes on. A lock whose sink refuses reads
/// what the driver emulates in its place; data is pinned where there is some,
/// and where there is none the walk goes on.
pub proof fn law_a_read_is_pinned_or_passed(
    w: WalkView,
    own: bool,
    took_ms: u64,
    rc: i32,
    kind: i32,
    size: i32,
)
    requires
        w.at_connector(),
    ensures
        ({
            let (after, next) = w.has_read(own, took_ms, rc, kind, size);
            let r = after.recs.last();
            let lock = w.action == EmulAction::Lock;
            let again = lock && own && rc != 0;
            &&& !lock ==> r.op == "adl-conn-data"@ && after.port == w.port + 1
            &&& again ==> after == w && (next matches Next::Call(
                Call::Read { adapter, connector, own: o },
            ) && adapter == w.adapter().index && connector == w.connector().index && !o)
            &&& lock && !again ==> r.op == "adl-lock-read"@
            &&& !again ==> after.recs.len() == w.recs.len() + 1 && r.target == w.target()
                && r.took_ms == took_ms && r.rc == rc && r.extra == data_extra(kind, size)
            &&& lock && rc == 0 && size > 0 ==> after.port == w.port && (next matches Next::Call(
                Call::Pin { adapter, connector },
            ) && adapter == w.adapter().index && connector == w.connector().index)
            &&& lock && !again && (rc != 0 || size <= 0) ==> after.port == w.port + 1
        }),
        data_extra(kind, size) == "type="@ + signed(kind as int) + " edid_bytes="@ + signed(
            size as int,
        ),
{
    let left = "type="@ + signed(kind as int);
    assert(left + (" edid_bytes="@ + signed(size as int)) =~= left + " edid_bytes="@ + signed(
        size as int,
    ));
}

/// Pinned data is followed by emulation turned on, whatever came of it; that
/// ends a lock's connector. Emulation turned off is followed by the removal of
/// the data, and that ends an unlock's.
pub proof fn law_a_pin_is_followed_by_its_mode(w: WalkView, took_ms: u64, rc: i32)
    requires
        w.at_connector(),
    ensures
        ({
            let (after, next) = w.pinned(took_ms, rc);
            let r = after.recs.last();
            &&& next matches Next::Call(Call::Mode { adapter, connector, mode }) && adapter
                == w.adapter().index && connector == w.connector().index && mode == 3
            &&& after.recs.len() == w.recs.len() + 1 && r.op == "adl-lock-set"@ && r.target
                == w.target() && r.took_ms == took_ms && r.rc == rc
            &&& after.port == w.port && after.at == w.at
        }),
        ({
            let (after, next) = w.moded(took_ms, rc);
            let r = after.recs.last();
            let lock = w.action == EmulAction::Lock;
            &&& after.recs.len() == w.recs.len() + 1 && r.target == w.target() && r.took_ms
                == took_ms && r.rc == rc
            &&& lock ==> r.op == "adl-lock-mode-always"@ && after.port == w.port + 1
            &&& !lock ==> r.op == "adl-unlock-mode-off"@ && after.port == w.port && (
            next matches Next::Call(Call::Remove { adapter, connector }) && adapter
                == w.adapter().index && connector == w.connector().index)
        }),
        ({
            let (after, next) = w.removed(took_ms, rc);
            let r = after.recs.last();
            &&& after.recs.len() == w.recs.len() + 1 && r.op == "adl-unlock-remove"@ && r.target
                == w.target() && r.took_ms == took_ms && r.rc == rc
            &&& after.port == w.port + 1
        }),
        w.target() == connector_target(w.adapters[w.at].index, w.connectors[w.port]),
{
}

} // verus!
