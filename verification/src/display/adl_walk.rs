//! The walk over a driver's connectors: which call comes next, given what the
//! last one answered.
//!
//! Whoever drives the walk makes the call it is told to make and hands the
//! answer back. Every call leaves a record.

use super::adl_emul::{
    connector_type_name, connector_type_str, records_of, EmulAction, OpRecord, Record, RunOutcome,
    ADL_OK,
};
use crate::text::{
    append_hex, append_signed, append_truth, hexadecimal, same_bits, signed, truth,
};
use vstd::prelude::*;
use vstd::string::*;

verus! {

pub const AMD_VENDOR_ID: i32 = 1002;

pub const ADL_EMUL_MODE_OFF: i32 = 0;

pub const ADL_EMUL_MODE_ALWAYS: i32 = 3;

/// Bits of a connector's emulation status.
pub const ADL_EMUL_STATUS_REAL_DEVICE_CONNECTED: i32 = 0x1;

pub const ADL_EMUL_STATUS_EMULATED_DEVICE_PRESENT: i32 = 0x2;

pub const ADL_EMUL_STATUS_EMULATED_DEVICE_USED: i32 = 0x4;

/// A logical adapter, as the driver lists it. One board is many.
#[derive(Debug)]
pub struct Adapter {
    pub index: i32,
    pub bus: i32,
    pub vendor: i32,
    pub present: i32,
    pub name: String,
}

/// What an adapter is.
#[verifier::ext_equal]
pub struct AdapterView {
    pub index: i32,
    pub bus: i32,
    pub vendor: i32,
    pub present: i32,
    pub name: Seq<char>,
}

impl View for Adapter {
    type V = AdapterView;

    open spec fn view(&self) -> AdapterView {
        AdapterView {
            index: self.index,
            bus: self.bus,
            vendor: self.vendor,
            present: self.present,
            name: self.name@,
        }
    }
}

/// What a list of adapters is.
pub open spec fn adapters_of(list: Seq<Adapter>) -> Seq<AdapterView> {
    list.map_values(|a: Adapter| a@)
}

/// A connector of an adapter.
#[derive(Clone, Copy, Debug, PartialEq, Eq, Structural)]
pub struct Connector {
    pub index: i32,
    pub kind: i32,
}

/// A call into the driver.
#[derive(Clone, Copy, Debug, PartialEq, Eq, Structural)]
pub enum Call {
    /// Start the driver.
    Create,
    /// Count the adapters.
    Count,
    /// List this many adapters.
    Adapters(i32),
    /// Ask an adapter whether it manages connector data.
    Caps(i32),
    /// List an adapter's connectors.
    Layout(i32),
    /// Read a connector's emulation state.
    State { adapter: i32, connector: i32 },
    /// Read a connector's data: the sink's own, or what the driver emulates.
    Read { adapter: i32, connector: i32, own: bool },
    /// Pin the data just read.
    Pin { adapter: i32, connector: i32 },
    /// Set a connector's emulation mode.
    Mode { adapter: i32, connector: i32, mode: i32 },
    /// Remove a connector's pinned data.
    Remove { adapter: i32, connector: i32 },
}

/// What comes next.
#[derive(Clone, Copy, Debug, PartialEq, Eq, Structural)]
pub enum Next {
    Call(Call),
    /// The walk is over. `destroy` says that the driver was started and is to
    /// be stopped, `done` that the walk got through.
    Over { destroy: bool, done: bool },
}

/// A walk in progress.
pub struct Walk {
    pub action: EmulAction,
    /// Walk only this connector.
    pub filter: Option<i32>,
    pub recs: Vec<OpRecord>,
    pub count: i32,
    /// The adapters to walk, and which one it is.
    pub adapters: Vec<Adapter>,
    pub at: usize,
    /// The connectors of that one to walk, and which one it is.
    pub connectors: Vec<Connector>,
    pub port: usize,
}

/// What a walk has come to.
#[verifier::ext_equal]
pub struct WalkView {
    pub action: EmulAction,
    pub filter: Option<i32>,
    pub recs: Seq<Record>,
    pub count: i32,
    pub adapters: Seq<AdapterView>,
    pub at: int,
    pub connectors: Seq<Connector>,
    pub port: int,
}

impl View for Walk {
    type V = WalkView;

    open spec fn view(&self) -> WalkView {
        WalkView {
            action: self.action,
            filter: self.filter,
            recs: records_of(self.recs@),
            count: self.count,
            adapters: adapters_of(self.adapters@),
            at: self.at as int,
            connectors: self.connectors@,
            port: self.port as int,
        }
    }
}

/// An adapter's name in the records.
pub open spec fn adapter_target(a: AdapterView) -> Seq<char> {
    "adapter"@ + signed(a.index as int) + "["@ + a.name + "]"@
}

/// A connector's name in the records.
pub open spec fn connector_target(adapter: i32, c: Connector) -> Seq<char> {
    "adapter"@ + signed(adapter as int) + ".connector"@ + signed(c.index as int) + "["@
        + connector_type_name(c.kind) + "]"@
}

/// A number under a name.
pub open spec fn named(name: Seq<char>, n: i32) -> Seq<char> {
    name + signed(n as int)
}

fn name_number(name: &str, n: i32) -> (text: String)
    ensures
        text@ == named(name@, n),
{
    let mut text: String = String::from_str(name);
    append_signed(&mut text, n);
    text
}

/// A record without anything extra.
pub open spec fn plain(op: Seq<char>, target: Seq<char>, took_ms: u64, rc: i32) -> Record {
    Record { op, target, took_ms: took_ms as u128, rc, extra: ""@ }
}

/// What a data read says in its record.
pub open spec fn data_extra(kind: i32, size: i32) -> Seq<char> {
    named("type="@, kind) + named(" edid_bytes="@, size)
}

fn data_text(kind: i32, size: i32) -> (text: String)
    ensures
        text@ == data_extra(kind, size),
{
    let mut text: String = name_number("type=", kind);
    text.append(" edid_bytes=");
    append_signed(&mut text, size);
    assert(text@ =~= data_extra(kind, size));
    text
}

/// What an adapter looks like from outside.
pub open spec fn shape(a: AdapterView) -> (i32, i32, i32) {
    (a.bus, a.vendor, a.present)
}

/// The shapes among the adapters, each once.
pub open spec fn shapes(adapters: Seq<AdapterView>) -> Seq<(i32, i32, i32)>
    decreases adapters.len(),
{
    if adapters.len() == 0 {
        Seq::empty()
    } else {
        let before = shapes(adapters.drop_last());
        let s = shape(adapters.last());
        if before.contains(s) {
            before
        } else {
            before.push(s)
        }
    }
}

/// The record that an adapter of some shape was seen.
pub open spec fn seen_record(a: AdapterView) -> Record {
    Record {
        op: "adl-adapter-seen"@,
        target: named("bus"@, a.bus),
        took_ms: 0,
        rc: ADL_OK,
        extra: named("vendor_id="@, a.vendor) + named(" present="@, a.present) + " name="@ + a.name,
    }
}

/// One record for each shape, so that a walk over nothing still says why.
pub open spec fn seen_records(adapters: Seq<AdapterView>) -> Seq<Record>
    decreases adapters.len(),
{
    if adapters.len() == 0 {
        Seq::empty()
    } else {
        let before = seen_records(adapters.drop_last());
        if shapes(adapters.drop_last()).contains(shape(adapters.last())) {
            before
        } else {
            before.push(seen_record(adapters.last()))
        }
    }
}

/// The adapter is one of the vendor's, and present. A probe asks an adapter
/// that drives no display too: it still answers what it can do.
pub open spec fn walkable(a: AdapterView, action: EmulAction) -> bool {
    (a.present != 0 || (action == EmulAction::Probe && a.bus >= 0)) && a.vendor == AMD_VENDOR_ID
}

pub open spec fn has_bus(adapters: Seq<AdapterView>, bus: i32) -> bool {
    exists|i: int| 0 <= i < adapters.len() && (#[trigger] adapters[i]).bus == bus
}

/// The adapters to walk: the walkable ones, one for each bus.
pub open spec fn to_walk(adapters: Seq<AdapterView>, action: EmulAction) -> Seq<AdapterView>
    decreases adapters.len(),
{
    if adapters.len() == 0 {
        Seq::empty()
    } else {
        let before = to_walk(adapters.drop_last(), action);
        let a = adapters.last();
        if walkable(a, action) && !has_bus(before, a.bus) {
            before.push(a)
        } else {
            before
        }
    }
}

/// The connectors to walk: all, or the one that is asked for.
pub open spec fn to_visit(connectors: Seq<Connector>, filter: Option<i32>) -> Seq<Connector>
    decreases connectors.len(),
{
    if connectors.len() == 0 {
        Seq::empty()
    } else {
        let before = to_visit(connectors.drop_last(), filter);
        let c = connectors.last();
        match filter {
            Some(want) => if c.index == want {
                before.push(c)
            } else {
                before
            },
            None => before.push(c),
        }
    }
}

/// A bit of a status is set.
pub open spec fn has_bit(status: i32, bit: i32) -> bool {
    status & bit != 0
}

/// What a connector's state says in its record.
pub open spec fn state_extra(status: i32, mode: i32, display: i32) -> Seq<char> {
    "status="@ + "0x"@ + hexadecimal(same_bits(status)) + " real_connected="@ + truth(
        has_bit(status, ADL_EMUL_STATUS_REAL_DEVICE_CONNECTED),
    ) + " emulated_present="@ + truth(has_bit(status, ADL_EMUL_STATUS_EMULATED_DEVICE_PRESENT))
        + " emulated_used="@ + truth(has_bit(status, ADL_EMUL_STATUS_EMULATED_DEVICE_USED))
        + " mode="@ + signed(mode as int) + " display="@ + signed(display as int)
}

fn state_text(status: i32, mode: i32, display: i32) -> (text: String)
    ensures
        text@ == state_extra(status, mode, display),
{
    let mut text: String = String::from_str("status=");
    append_hex(&mut text, status);
    text.append(" real_connected=");
    append_truth(&mut text, status & ADL_EMUL_STATUS_REAL_DEVICE_CONNECTED != 0);
    text.append(" emulated_present=");
    append_truth(&mut text, status & ADL_EMUL_STATUS_EMULATED_DEVICE_PRESENT != 0);
    text.append(" emulated_used=");
    append_truth(&mut text, status & ADL_EMUL_STATUS_EMULATED_DEVICE_USED != 0);
    text.append(" mode=");
    append_signed(&mut text, mode);
    text.append(" display=");
    append_signed(&mut text, display);
    text
}

/// The call every walk begins with.
pub open spec fn first_call() -> Next {
    Next::Call(Call::Create)
}

/// `outcome` is what a walk with these records came to.
pub open spec fn came_to(recs: Seq<Record>, done: bool, outcome: RunOutcome) -> bool {
    &&& outcome.said() == recs
    &&& done ==> outcome is Done
    &&& !done ==> outcome is InitFailed
}

impl WalkView {
    /// A walk that has not begun.
    pub open spec fn fresh(action: EmulAction, filter: Option<i32>) -> WalkView {
        WalkView {
            action,
            filter,
            recs: Seq::empty(),
            count: 0,
            adapters: Seq::empty(),
            at: 0,
            connectors: Seq::empty(),
            port: 0,
        }
    }

    pub open spec fn noting(self, r: Record) -> WalkView {
        WalkView { recs: self.recs.push(r), ..self }
    }

    pub open spec fn adapter(self) -> AdapterView {
        self.adapters[self.at]
    }

    pub open spec fn connector(self) -> Connector {
        self.connectors[self.port]
    }

    /// The connector's name in the records.
    pub open spec fn target(self) -> Seq<char> {
        connector_target(self.adapter().index, self.connector())
    }

    /// An adapter is being walked.
    pub open spec fn at_adapter(self) -> bool {
        0 <= self.at < self.adapters.len()
    }

    /// A connector is being walked.
    pub open spec fn at_connector(self) -> bool {
        self.at_adapter() && 0 <= self.port < self.connectors.len()
    }

    /// On to the adapter it stands at, if there is one.
    pub open spec fn to_adapter(self) -> Next {
        if self.at < self.adapters.len() {
            Next::Call(Call::Caps(self.adapter().index))
        } else {
            Next::Over { destroy: true, done: true }
        }
    }

    /// On to the connector it stands at, or to the next adapter.
    pub open spec fn to_connector(self) -> (WalkView, Next) {
        if self.port < self.connectors.len() {
            (
                self,
                Next::Call(
                    Call::State {
                        adapter: self.adapter().index,
                        connector: self.connector().index,
                    },
                ),
            )
        } else {
            let w = WalkView { at: self.at + 1, ..self };
            (w, w.to_adapter())
        }
    }

    /// Done with this connector.
    pub open spec fn onward(self) -> (WalkView, Next) {
        WalkView { port: self.port + 1, ..self }.to_connector()
    }

    /// The driver was started, or not.
    pub open spec fn created(self, took_ms: u64, rc: i32) -> (WalkView, Next) {
        (
            self.noting(plain("adl-init"@, "atiadlxx"@, took_ms, rc)),
            if rc != ADL_OK {
                Next::Over { destroy: false, done: false }
            } else {
                Next::Call(Call::Count)
            },
        )
    }

    /// The adapters were counted.
    pub open spec fn counted(self, rc: i32, count: i32) -> (WalkView, Next) {
        if rc != ADL_OK || count <= 0 {
            (
                self.noting(
                    Record {
                        op: "adl-num-adapters"@,
                        target: "all"@,
                        took_ms: 0,
                        rc,
                        extra: named("count="@, count),
                    },
                ),
                Next::Over { destroy: true, done: false },
            )
        } else {
            (WalkView { count, ..self }, Next::Call(Call::Adapters(count)))
        }
    }

    /// The adapters were listed.
    pub open spec fn listed(self, rc: i32, adapters: Seq<AdapterView>) -> (WalkView, Next) {
        let w = self.noting(
            Record {
                op: "adl-adapters"@,
                target: "all"@,
                took_ms: 0,
                rc,
                extra: named("count="@, self.count),
            },
        );
        if rc != ADL_OK {
            (w, Next::Over { destroy: true, done: false })
        } else {
            let w = WalkView {
                recs: w.recs + seen_records(adapters),
                adapters: to_walk(adapters, self.action),
                at: 0,
                ..w
            };
            (w, w.to_adapter())
        }
    }

    /// An adapter said what it can do.
    pub open spec fn capable(self, took_ms: u64, rc: i32, supported: i32) -> (WalkView, Next) {
        (
            self.noting(
                Record {
                    op: "adl-edid-caps"@,
                    target: adapter_target(self.adapter()),
                    took_ms: took_ms as u128,
                    rc,
                    extra: named("supported="@, supported),
                },
            ),
            Next::Call(Call::Layout(self.adapter().index)),
        )
    }

    /// An adapter listed its connectors. What a failed call listed is not
    /// believed.
    pub open spec fn laid_out(
        self,
        took_ms: u64,
        rc: i32,
        valid_flags: i32,
        count: i32,
        connectors: Seq<Connector>,
    ) -> (WalkView, Next) {
        let w = self.noting(
            Record {
                op: "adl-board-layout"@,
                target: adapter_target(self.adapter()),
                took_ms: took_ms as u128,
                rc,
                extra: named("connectors="@, count) + " valid_flags="@ + "0x"@ + hexadecimal(
                    same_bits(valid_flags),
                ),
            },
        );
        WalkView {
            connectors: if rc == ADL_OK && count > 0 {
                to_visit(connectors, self.filter)
            } else {
                Seq::empty()
            },
            port: 0,
            ..w
        }.to_connector()
    }

    /// A connector's state was read.
    pub open spec fn stated(
        self,
        took_ms: u64,
        rc: i32,
        status: i32,
        mode: i32,
        display: i32,
    ) -> (WalkView, Next) {
        let w = self.noting(
            Record {
                op: "adl-conn-state"@,
                target: self.target(),
                took_ms: took_ms as u128,
                rc,
                extra: state_extra(status, mode, display),
            },
        );
        let read = (
            w,
            Next::Call(
                Call::Read {
                    adapter: self.adapter().index,
                    connector: self.connector().index,
                    own: true,
                },
            ),
        );
        if rc != ADL_OK {
            w.onward()
        } else {
            match self.action {
                EmulAction::Probe => read,
                EmulAction::Lock => if self.filter is None && !has_bit(
                    status,
                    ADL_EMUL_STATUS_REAL_DEVICE_CONNECTED,
                ) {
                    w.onward()
                } else if self.filter is None && mode == ADL_EMUL_MODE_ALWAYS {
                    w.noting(
                        Record {
                            op: "adl-lock-skip-preexisting"@,
                            target: self.target(),
                            took_ms: 0,
                            rc: ADL_OK,
                            extra: named("mode="@, mode),
                        },
                    ).onward()
                } else {
                    read
                },
                EmulAction::Unlock => (
                    w,
                    Next::Call(
                        Call::Mode {
                            adapter: self.adapter().index,
                            connector: self.connector().index,
                            mode: ADL_EMUL_MODE_OFF,
                        },
                    ),
                ),
            }
        }
    }

    /// A connector's data was read. A sink that is asleep can refuse; then
    /// what the driver emulates is read in its place, and the time is that of
    /// both reads.
    pub open spec fn has_read(
        self,
        own: bool,
        took_ms: u64,
        rc: i32,
        kind: i32,
        size: i32,
    ) -> (WalkView, Next) {
        if self.action != EmulAction::Lock {
            self.noting(
                Record {
                    op: "adl-conn-data"@,
                    target: self.target(),
                    took_ms: took_ms as u128,
                    rc,
                    extra: data_extra(kind, size),
                },
            ).onward()
        } else if own && rc != ADL_OK {
            (
                self,
                Next::Call(
                    Call::Read {
                        adapter: self.adapter().index,
                        connector: self.connector().index,
                        own: false,
                    },
                ),
            )
        } else {
            let w = self.noting(
                Record {
                    op: "adl-lock-read"@,
                    target: self.target(),
                    took_ms: took_ms as u128,
                    rc,
                    extra: data_extra(kind, size),
                },
            );
            if rc != ADL_OK || size <= 0 {
                w.onward()
            } else {
                (
                    w,
                    Next::Call(
                        Call::Pin {
                            adapter: self.adapter().index,
                            connector: self.connector().index,
                        },
                    ),
                )
            }
        }
    }

    /// The data was pinned. Emulation is turned on whatever came of that.
    pub open spec fn pinned(self, took_ms: u64, rc: i32) -> (WalkView, Next) {
        (
            self.noting(plain("adl-lock-set"@, self.target(), took_ms, rc)),
            Next::Call(
                Call::Mode {
                    adapter: self.adapter().index,
                    connector: self.connector().index,
                    mode: ADL_EMUL_MODE_ALWAYS,
                },
            ),
        )
    }

    /// The emulation mode was set.
    pub open spec fn moded(self, took_ms: u64, rc: i32) -> (WalkView, Next) {
        if self.action == EmulAction::Lock {
            self.noting(plain("adl-lock-mode-always"@, self.target(), took_ms, rc)).onward()
        } else {
            (
                self.noting(plain("adl-unlock-mode-off"@, self.target(), took_ms, rc)),
                Next::Call(
                    Call::Remove {
                        adapter: self.adapter().index,
                        connector: self.connector().index,
                    },
                ),
            )
        }
    }

    /// The pinned data was removed.
    pub open spec fn removed(self, took_ms: u64, rc: i32) -> (WalkView, Next) {
        self.noting(plain("adl-unlock-remove"@, self.target(), took_ms, rc)).onward()
    }
}

fn same_shape(a: (i32, i32, i32), b: (i32, i32, i32)) -> (r: bool)
    ensures
        r == (a == b),
{
    a.0 == b.0 && a.1 == b.1 && a.2 == b.2
}

fn has_shape(list: &Vec<(i32, i32, i32)>, s: (i32, i32, i32)) -> (r: bool)
    ensures
        r == list@.contains(s),
{
    let mut i: usize = 0;
    while i < list.len()
        invariant
            i <= list@.len(),
            forall|j: int| 0 <= j < i ==> list@[j] != s,
        decreases list@.len() - i,
    {
        if same_shape(list[i], s) {
            assert(list@[i as int] == s);
            return true;
        }
        i = i + 1;
    }
    false
}

fn seen_text(a: &Adapter) -> (text: String)
    ensures
        text@ == seen_record(a@).extra,
{
    let mut text: String = name_number("vendor_id=", a.vendor);
    text.append(" present=");
    append_signed(&mut text, a.present);
    text.append(" name=");
    text.append(a.name.as_str());
    assert(text@ =~= seen_record(a@).extra);
    text
}

fn holds_bus(list: &Vec<Adapter>, bus: i32) -> (r: bool)
    ensures
        r == has_bus(adapters_of(list@), bus),
{
    let mut i: usize = 0;
    while i < list.len()
        invariant
            i <= list@.len(),
            forall|j: int| 0 <= j < i ==> (#[trigger] adapters_of(list@)[j]).bus != bus,
        decreases list@.len() - i,
    {
        assert(adapters_of(list@)[i as int].bus == list@[i as int].bus);
        if list[i].bus == bus {
            return true;
        }
        i = i + 1;
    }
    false
}

/// Pick the adapters to walk.
fn pick_adapters(adapters: &Vec<Adapter>, action: EmulAction) -> (picked: Vec<Adapter>)
    ensures
        adapters_of(picked@) == to_walk(adapters_of(adapters@), action),
{
    let mut picked: Vec<Adapter> = Vec::new();
    let mut i: usize = 0;
    assert(adapters_of(picked@) =~= Seq::empty());
    assert(adapters_of(adapters@).take(0) =~= Seq::empty());
    while i < adapters.len()
        invariant
            i <= adapters@.len(),
            adapters_of(picked@) == to_walk(adapters_of(adapters@).take(i as int), action),
        decreases adapters@.len() - i,
    {
        let ghost all = adapters_of(adapters@);
        let ghost before = adapters_of(picked@);
        assert(all.take(i + 1).drop_last() =~= all.take(i as int));
        let a = &adapters[i];
        let present = a.present != 0 || (action == EmulAction::Probe && a.bus >= 0);
        if present && a.vendor == AMD_VENDOR_ID && !holds_bus(&picked, a.bus) {
            picked.push(
                Adapter {
                    index: a.index,
                    bus: a.bus,
                    vendor: a.vendor,
                    present: a.present,
                    name: a.name.clone(),
                },
            );
            assert(picked@.last()@ == all[i as int]);
            assert(adapters_of(picked@) =~= before.push(all[i as int]));
        }
        i = i + 1;
    }
    assert(adapters_of(adapters@).take(adapters@.len() as int) =~= adapters_of(adapters@));
    picked
}

/// Pick the connectors to visit.
fn pick_connectors(connectors: &Vec<Connector>, filter: Option<i32>) -> (picked: Vec<Connector>)
    ensures
        picked@ == to_visit(connectors@, filter),
{
    let mut picked: Vec<Connector> = Vec::new();
    let mut i: usize = 0;
    while i < connectors.len()
        invariant
            i <= connectors@.len(),
            picked@ == to_visit(connectors@.take(i as int), filter),
        decreases connectors@.len() - i,
    {
        assert(connectors@.take(i + 1).drop_last() =~= connectors@.take(i as int));
        let c = connectors[i];
        let wanted = match filter {
            Some(want) => c.index == want,
            None => true,
        };
        if wanted {
            picked.push(c);
        }
        i = i + 1;
    }
    assert(connectors@.take(connectors@.len() as int) =~= connectors@);
    picked
}

impl Walk {
    /// A walk that does `action` to every connector, or to the one that is
    /// named.
    pub fn new(action: EmulAction, filter: Option<i32>) -> (w: Walk)
        ensures
            w@ == WalkView::fresh(action, filter),
            w@ == (WalkView {
                action,
                filter,
                recs: Seq::empty(),
                count: 0,
                adapters: Seq::empty(),
                at: 0,
                connectors: Seq::empty(),
                port: 0,
            }),
    {
        let w = Walk {
            action,
            filter,
            recs: Vec::new(),
            count: 0,
            adapters: Vec::new(),
            at: 0,
            connectors: Vec::new(),
            port: 0,
        };
        assert(records_of(w.recs@) =~= Seq::empty());
        assert(adapters_of(w.adapters@) =~= Seq::empty());
        w
    }

    /// The first call.
    pub fn start(&self) -> (next: Next)
        ensures
            next == first_call(),
            next == Next::Call(Call::Create),
    {
        Next::Call(Call::Create)
    }

    /// An adapter is being walked.
    pub fn at_adapter(&self) -> (r: bool)
        ensures
            r == self@.at_adapter(),
    {
        self.at < self.adapters.len()
    }

    /// A connector is being walked.
    pub fn at_connector(&self) -> (r: bool)
        ensures
            r == self@.at_connector(),
    {
        self.at < self.adapters.len() && self.port < self.connectors.len()
    }

    fn note(&mut self, op: &'static str, target: String, took_ms: u128, rc: i32, extra: String)
        ensures
            final(self)@ == old(self)@.noting(
                Record { op: op@, target: target@, took_ms, rc, extra: extra@ },
            ),
    {
        let ghost r = Record { op: op@, target: target@, took_ms, rc, extra: extra@ };
        self.recs.push(OpRecord { op, target, took_ms, rc, extra });
        assert(records_of(self.recs@) =~= records_of(old(self).recs@).push(r));
    }

    fn note_plain(&mut self, op: &'static str, target: String, took_ms: u64, rc: i32)
        ensures
            final(self)@ == old(self)@.noting(plain(op@, target@, took_ms, rc)),
    {
        self.note(op, target, took_ms as u128, rc, String::from_str(""));
    }

    fn to_adapter(&self) -> (next: Next)
        ensures
            next == self@.to_adapter(),
    {
        if self.at < self.adapters.len() {
            assert(self@.adapter() == self.adapters@[self.at as int]@);
            Next::Call(Call::Caps(self.adapters[self.at].index))
        } else {
            Next::Over { destroy: true, done: true }
        }
    }

    fn to_connector(&mut self) -> (next: Next)
        requires
            old(self)@.at_adapter(),
        ensures
            (final(self)@, next) == old(self)@.to_connector(),
    {
        if self.port < self.connectors.len() {
            assert(self@.adapter() == self.adapters@[self.at as int]@);
            Next::Call(
                Call::State {
                    adapter: self.adapters[self.at].index,
                    connector: self.connectors[self.port].index,
                },
            )
        } else {
            assert(self.at < self.adapters.len());
            self.at = self.at + 1;
            self.to_adapter()
        }
    }

    fn onward(&mut self) -> (next: Next)
        requires
            old(self)@.at_connector(),
        ensures
            (final(self)@, next) == old(self)@.onward(),
    {
        assert(self.port < self.connectors.len());
        self.port = self.port + 1;
        self.to_connector()
    }

    fn adapter_name(&self) -> (text: String)
        requires
            self@.at_adapter(),
        ensures
            text@ == adapter_target(self@.adapter()),
    {
        let a = &self.adapters[self.at];
        assert(self@.adapter() == a@);
        let mut text: String = name_number("adapter", a.index);
        text.append("[");
        text.append(a.name.as_str());
        text.append("]");
        text
    }

    fn connector_name(&self) -> (text: String)
        requires
            self@.at_connector(),
        ensures
            text@ == self@.target(),
    {
        let c = self.connectors[self.port];
        assert(self@.adapter() == self.adapters@[self.at as int]@);
        let mut text: String = name_number("adapter", self.adapters[self.at].index);
        text.append(".connector");
        append_signed(&mut text, c.index);
        text.append("[");
        text.append(connector_type_str(c.kind));
        text.append("]");
        text
    }

    /// The driver was started, or not.
    pub fn on_created(&mut self, took_ms: u64, rc: i32) -> (next: Next)
        ensures
            (final(self)@, next) == old(self)@.created(took_ms, rc),
    {
        self.note_plain("adl-init", String::from_str("atiadlxx"), took_ms, rc);
        if rc != ADL_OK {
            Next::Over { destroy: false, done: false }
        } else {
            Next::Call(Call::Count)
        }
    }

    /// The adapters were counted.
    pub fn on_count(&mut self, rc: i32, count: i32) -> (next: Next)
        ensures
            (final(self)@, next) == old(self)@.counted(rc, count),
    {
        if rc != ADL_OK || count <= 0 {
            self.note(
                "adl-num-adapters",
                String::from_str("all"),
                0,
                rc,
                name_number("count=", count),
            );
            Next::Over { destroy: true, done: false }
        } else {
            self.count = count;
            Next::Call(Call::Adapters(count))
        }
    }

    fn note_seen(&mut self, adapters: &Vec<Adapter>)
        ensures
            final(self)@ == (WalkView {
                recs: old(self)@.recs + seen_records(adapters_of(adapters@)),
                ..old(self)@
            }),
    {
        let mut seen: Vec<(i32, i32, i32)> = Vec::new();
        let mut i: usize = 0;
        assert(adapters_of(adapters@).take(0) =~= Seq::empty());
        assert(self@.recs + Seq::<Record>::empty() =~= self@.recs);
        while i < adapters.len()
            invariant
                i <= adapters@.len(),
                seen@ == shapes(adapters_of(adapters@).take(i as int)),
                self@ == (WalkView {
                    recs: old(self)@.recs + seen_records(adapters_of(adapters@).take(i as int)),
                    ..old(self)@
                }),
            decreases adapters@.len() - i,
        {
            let ghost all = adapters_of(adapters@);
            let ghost before = self@.recs;
            assert(all.take(i + 1).drop_last() =~= all.take(i as int));
            assert(all.take(i + 1).last() == adapters@[i as int]@);
            let a = &adapters[i];
            let s = (a.bus, a.vendor, a.present);
            if !has_shape(&seen, s) {
                seen.push(s);
                let extra = seen_text(a);
                self.note("adl-adapter-seen", name_number("bus", a.bus), 0, ADL_OK, extra);
                assert(self@.recs =~= old(self)@.recs + seen_records(all.take(i + 1)));
            }
            i = i + 1;
        }
        assert(adapters_of(adapters@).take(adapters@.len() as int) =~= adapters_of(adapters@));
    }

    /// The adapters were listed.
    pub fn on_adapters(&mut self, rc: i32, adapters: Vec<Adapter>) -> (next: Next)
        ensures
            (final(self)@, next) == old(self)@.listed(rc, adapters_of(adapters@)),
    {
        self.note(
            "adl-adapters",
            String::from_str("all"),
            0,
            rc,
            name_number("count=", self.count),
        );
        if rc != ADL_OK {
            return Next::Over { destroy: true, done: false };
        }
        self.note_seen(&adapters);
        self.adapters = pick_adapters(&adapters, self.action);
        self.at = 0;
        self.to_adapter()
    }

    /// An adapter said what it can do.
    pub fn on_caps(&mut self, took_ms: u64, rc: i32, supported: i32) -> (next: Next)
        requires
            old(self)@.at_adapter(),
        ensures
            (final(self)@, next) == old(self)@.capable(took_ms, rc, supported),
    {
        let target = self.adapter_name();
        self.note(
            "adl-edid-caps",
            target,
            took_ms as u128,
            rc,
            name_number("supported=", supported),
        );
        assert(self@.adapter() == self.adapters@[self.at as int]@);
        Next::Call(Call::Layout(self.adapters[self.at].index))
    }

    /// An adapter listed its connectors.
    pub fn on_layout(
        &mut self,
        took_ms: u64,
        rc: i32,
        valid_flags: i32,
        count: i32,
        connectors: Vec<Connector>,
    ) -> (next: Next)
        requires
            old(self)@.at_adapter(),
        ensures
            (final(self)@, next) == old(self)@.laid_out(
                took_ms,
                rc,
                valid_flags,
                count,
                connectors@,
            ),
    {
        let target = self.adapter_name();
        let mut extra: String = name_number("connectors=", count);
        extra.append(" valid_flags=");
        append_hex(&mut extra, valid_flags);
        self.note("adl-board-layout", target, took_ms as u128, rc, extra);
        self.connectors = if rc == ADL_OK && count > 0 {
            pick_connectors(&connectors, self.filter)
        } else {
            Vec::new()
        };
        self.port = 0;
        self.to_connector()
    }

    /// A connector's state was read.
    pub fn on_state(&mut self, took_ms: u64, rc: i32, status: i32, mode: i32, display: i32) -> (next:
        Next)
        requires
            old(self)@.at_connector(),
        ensures
            (final(self)@, next) == old(self)@.stated(took_ms, rc, status, mode, display),
    {
        let target = self.connector_name();
        assert(self@.adapter() == self.adapters@[self.at as int]@);
        let adapter: i32 = self.adapters[self.at].index;
        let connector: i32 = self.connectors[self.port].index;
        let extra = state_text(status, mode, display);
        self.note("adl-conn-state", target, took_ms as u128, rc, extra);
        if rc != ADL_OK {
            return self.onward();
        }
        match self.action {
            EmulAction::Probe => {
                Next::Call(Call::Read { adapter, connector, own: true })
            },
            EmulAction::Lock => {
                if self.filter.is_none() {
                    if status & ADL_EMUL_STATUS_REAL_DEVICE_CONNECTED == 0 {
                        return self.onward();
                    }
                    if mode == ADL_EMUL_MODE_ALWAYS {
                        let target = self.connector_name();
                        self.note(
                            "adl-lock-skip-preexisting",
                            target,
                            0,
                            ADL_OK,
                            name_number("mode=", mode),
                        );
                        return self.onward();
                    }
                }
                Next::Call(Call::Read { adapter, connector, own: true })
            },
            EmulAction::Unlock => Next::Call(
                Call::Mode { adapter, connector, mode: ADL_EMUL_MODE_OFF },
            ),
        }
    }

    /// A connector's data was read. The time of a second read counts from the
    /// start of the first.
    pub fn on_read(&mut self, own: bool, took_ms: u64, rc: i32, kind: i32, size: i32) -> (next:
        Next)
        requires
            old(self)@.at_connector(),
        ensures
            (final(self)@, next) == old(self)@.has_read(own, took_ms, rc, kind, size),
    {
        let target = self.connector_name();
        assert(self@.adapter() == self.adapters@[self.at as int]@);
        let adapter: i32 = self.adapters[self.at].index;
        let connector: i32 = self.connectors[self.port].index;
        if self.action != EmulAction::Lock {
            self.note("adl-conn-data", target, took_ms as u128, rc, data_text(kind, size));
            return self.onward();
        }
        if own && rc != ADL_OK {
            return Next::Call(Call::Read { adapter, connector, own: false });
        }
        self.note("adl-lock-read", target, took_ms as u128, rc, data_text(kind, size));
        if rc != ADL_OK || size <= 0 {
            return self.onward();
        }
        Next::Call(Call::Pin { adapter, connector })
    }

    /// The data was pinned, or not.
    pub fn on_pinned(&mut self, took_ms: u64, rc: i32) -> (next: Next)
        requires
            old(self)@.at_connector(),
        ensures
            (final(self)@, next) == old(self)@.pinned(took_ms, rc),
    {
        let target = self.connector_name();
        self.note_plain("adl-lock-set", target, took_ms, rc);
        assert(self@.adapter() == self.adapters@[self.at as int]@);
        Next::Call(
            Call::Mode {
                adapter: self.adapters[self.at].index,
                connector: self.connectors[self.port].index,
                mode: ADL_EMUL_MODE_ALWAYS,
            },
        )
    }

    /// The emulation mode was set, or not.
    pub fn on_mode(&mut self, took_ms: u64, rc: i32) -> (next: Next)
        requires
            old(self)@.at_connector(),
        ensures
            (final(self)@, next) == old(self)@.moded(took_ms, rc),
    {
        let target = self.connector_name();
        if self.action == EmulAction::Lock {
            self.note_plain("adl-lock-mode-always", target, took_ms, rc);
            return self.onward();
        }
        self.note_plain("adl-unlock-mode-off", target, took_ms, rc);
        assert(self@.adapter() == self.adapters@[self.at as int]@);
        Next::Call(
            Call::Remove {
                adapter: self.adapters[self.at].index,
                connector: self.connectors[self.port].index,
            },
        )
    }

    /// The pinned data was removed, or not.
    pub fn on_removed(&mut self, took_ms: u64, rc: i32) -> (next: Next)
        requires
            old(self)@.at_connector(),
        ensures
            (final(self)@, next) == old(self)@.removed(took_ms, rc),
    {
        let target = self.connector_name();
        self.note_plain("adl-unlock-remove", target, took_ms, rc);
        self.onward()
    }

    /// The walk's outcome, once it is over.
    pub fn outcome(self, done: bool) -> (outcome: RunOutcome)
        ensures
            came_to(self@.recs, done, outcome),
            outcome.said() == self@.recs,
            done ==> outcome is Done,
            !done ==> outcome is InitFailed,
    {
        if done {
            RunOutcome::Done(self.recs)
        } else {
            RunOutcome::InitFailed(self.recs)
        }
    }
}

} // verus!
