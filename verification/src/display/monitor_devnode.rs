//! Taking monitor device nodes out for a stream, and putting them back.
//!
//! A monitor that is connected but asleep still wakes the link and makes the
//! desktop react. Its device node is disabled for the stream. What is disabled
//! is journaled first, so that the next host puts back what a crash left out.

use super::journal::texts;
use vstd::prelude::*;
use vstd::string::*;

verus! {

/// A display target: the adapter it hangs on and its number there.
#[derive(Clone, Copy, Debug, PartialEq, Eq, Structural)]
pub struct CcdTargetKey {
    pub adapter_luid: i64,
    pub target_id: u32,
}

impl CcdTargetKey {
    #[verifier::allow_in_spec]
    pub fn new(adapter_luid: i64, target_id: u32) -> CcdTargetKey
        returns
            (CcdTargetKey { adapter_luid, target_id }),
    {
        CcdTargetKey { adapter_luid, target_id }
    }
}

/// A connected display target.
#[derive(Debug)]
pub struct TargetInventory {
    pub key: CcdTargetKey,
    pub target_id: u32,
    /// Part of the desktop.
    pub active: bool,
    /// A monitor on a cable, neither built in nor virtual.
    pub external_physical: bool,
    pub internal_panel: bool,
    /// How it is connected.
    pub tech: &'static str,
    pub friendly: String,
    /// The device interface path of the monitor.
    pub monitor_device_path: String,
    pub ours: bool,
    pub gdi_name: String,
    pub x: i32,
    pub y: i32,
    pub width: u32,
    pub height: u32,
    pub refresh_mhz: u32,
    pub primary: bool,
    pub hdr: Option<bool>,
    pub source_id: u32,
    pub source_adapter_luid: i64,
}

/// Set in a saved path that was part of the desktop.
pub const DISPLAYCONFIG_PATH_ACTIVE: u32 = 0x0000_0001;

/// A path of the desktop as it was saved.
#[derive(Debug)]
pub struct SavedPath {
    pub key: CcdTargetKey,
    pub flags: u32,
    /// The monitor's instance and its name, where it has a device.
    pub monitor: Option<(String, String)>,
}

/// The path begins as a device interface path does.
pub open spec fn is_interface_path(path: Seq<char>) -> bool {
    path.len() >= 4 && path[0] == '\\' && path[1] == '\\' && path[2] == '?' && path[3] == '\\'
}

/// The interface class begins here.
pub open spec fn class_at(path: Seq<char>, i: int) -> bool {
    4 <= i && i + 1 < path.len() && path[i] == '#' && path[i + 1] == '{'
}

/// The last place before `n` where an interface class begins.
pub open spec fn last_class(path: Seq<char>, n: int) -> Option<int>
    decreases n,
{
    if n <= 4 {
        None
    } else if class_at(path, n - 1) {
        Some(n - 1)
    } else {
        last_class(path, n - 1)
    }
}

/// The separators of an instance in place of those of a path.
pub open spec fn instance_chars(part: Seq<char>) -> Seq<char> {
    part.map_values(
        |c: char|
            if c == '#' {
                '\\'
            } else {
                c
            },
    )
}

/// The instance a device interface path names: what stands between the
/// prefix and the last interface class.
pub open spec fn instance_named(path: Seq<char>) -> Option<Seq<char>> {
    if !is_interface_path(path) {
        None
    } else {
        match last_class(path, path.len() as int) {
            Some(cut) => Some(instance_chars(path.subrange(4, cut))),
            None => None,
        }
    }
}

/// The instance a device interface path names.
pub fn instance_id_from_interface_path(path: &str) -> (id: Option<String>)
    ensures
        match id {
            Some(id) => instance_named(path@) == Some(id@),
            None => instance_named(path@) is None,
        },
{
    let len: usize = path.unicode_len();
    if len < 4 || path.get_char(0) != '\\' || path.get_char(1) != '\\' || path.get_char(2) != '?'
        || path.get_char(3) != '\\' {
        return None;
    }
    let mut cut: usize = len;
    while cut > 4
        invariant
            len == path@.len(),
            4 <= cut <= len,
            last_class(path@, len as int) == last_class(path@, cut as int),
            is_interface_path(path@),
        decreases cut,
    {
        if cut < len && path.get_char(cut - 1) == '#' && path.get_char(cut) == '{' {
            assert(class_at(path@, cut - 1));
            let id: String = instance_text(path, 4, cut - 1);
            return Some(id);
        }
        assert(!class_at(path@, cut - 1));
        cut = cut - 1;
    }
    None
}

/// A stretch of a path with the separators of an instance.
fn instance_text(path: &str, from: usize, to: usize) -> (id: String)
    requires
        from <= to <= path@.len(),
    ensures
        id@ == instance_chars(path@.subrange(from as int, to as int)),
{
    proof {
        reveal_strlit("\\");
    }
    let mut id: String = String::new();
    let mut i: usize = from;
    while i < to
        invariant
            from <= i <= to <= path@.len(),
            id@ == instance_chars(path@.subrange(from as int, i as int)),
            "\\"@.len() == 1 && "\\"@[0] == '\\',
        decreases to - i,
    {
        if path.get_char(i) == '#' {
            id.append("\\");
        } else {
            id.append(path.substring_char(i, i + 1));
        }
        i = i + 1;
        assert(id@ =~= instance_chars(path@.subrange(from as int, i as int)));
    }
    id
}

/// A monitor to disable: its instance and the name it is logged under.
pub open spec fn entry(hit: (String, String)) -> (Seq<char>, Seq<char>) {
    (hit.0@, hit.1@)
}

/// What a list of monitors holds.
pub open spec fn entries(list: Seq<(String, String)>) -> Seq<(Seq<char>, Seq<char>)> {
    list.map_values(|hit: (String, String)| entry(hit))
}

/// The list with one more, unless it is there.
pub open spec fn with_entry(
    list: Seq<(Seq<char>, Seq<char>)>,
    hit: (Seq<char>, Seq<char>),
) -> Seq<(Seq<char>, Seq<char>)> {
    if list.contains(hit) {
        list
    } else {
        list.push(hit)
    }
}

fn add_entry(list: &mut Vec<(String, String)>, hit: (String, String))
    ensures
        entries(final(list)@) == with_entry(entries(old(list)@), entry(hit)),
{
    let mut i: usize = 0;
    while i < list.len()
        invariant
            i <= list@.len(),
            list@ == old(list)@,
            forall|j: int| 0 <= j < i ==> entry(#[trigger] list@[j]) != entry(hit),
        decreases list@.len() - i,
    {
        if list[i].0 == hit.0 && list[i].1 == hit.1 {
            assert(entries(old(list)@)[i as int] == entry(hit));
            return;
        }
        i = i + 1;
    }
    assert(!entries(old(list)@).contains(entry(hit))) by {
        if entries(old(list)@).contains(entry(hit)) {
            let j = choose|j: int|
                0 <= j < entries(old(list)@).len() && entries(old(list)@)[j] == entry(hit);
            assert(entry(old(list)@[j]) == entry(hit));
        }
    }
    list.push(hit);
    assert(entries(list@) =~= entries(old(list)@).push(entry(hit)));
}

fn has_key(keys: &[CcdTargetKey], key: CcdTargetKey) -> (r: bool)
    ensures
        r == keys@.contains(key),
{
    let mut i: usize = 0;
    while i < keys.len()
        invariant
            i <= keys@.len(),
            forall|j: int| 0 <= j < i ==> keys@[j] != key,
        decreases keys@.len() - i,
    {
        if keys[i] == key {
            assert(keys@[i as int] == key);
            return true;
        }
        i = i + 1;
    }
    false
}

/// The target is a standby sink: an external monitor outside the desktop that
/// is not ours, and that was outside it before anything was changed.
pub open spec fn is_standby_sink(
    t: TargetInventory,
    keep: Seq<CcdTargetKey>,
    baseline_active: Seq<CcdTargetKey>,
) -> bool {
    !t.active && t.external_physical && !keep.contains(t.key) && !baseline_active.contains(t.key)
}

/// The monitor of a target, under the name it is logged with.
pub open spec fn target_entry(t: TargetInventory) -> (Seq<char>, Seq<char>) {
    (
        instance_named(t.monitor_device_path@)->0,
        t.friendly@ + " ("@ + t.tech@ + ")"@,
    )
}

/// The standby sinks of an inventory that have a device, each once.
pub open spec fn standby_sinks(
    inventory: Seq<TargetInventory>,
    keep: Seq<CcdTargetKey>,
    baseline_active: Seq<CcdTargetKey>,
) -> Seq<(Seq<char>, Seq<char>)>
    decreases inventory.len(),
{
    if inventory.len() == 0 {
        Seq::empty()
    } else {
        let before = standby_sinks(inventory.drop_last(), keep, baseline_active);
        let t = inventory.last();
        if is_standby_sink(t, keep, baseline_active) && instance_named(t.monitor_device_path@)
            is Some {
            with_entry(before, target_entry(t))
        } else {
            before
        }
    }
}

/// Pick the monitors that are connected but outside the desktop, by an
/// inventory read after the topology was changed. `baseline_active` is what
/// was in the desktop before: a display that was, is the operator's, and is
/// never picked, however dark it reads now.
pub fn select_connected_inactive(
    inventory: &[TargetInventory],
    keep: &[CcdTargetKey],
    baseline_active: &[CcdTargetKey],
) -> (targets: Vec<(String, String)>)
    ensures
        entries(targets@) == standby_sinks(inventory@, keep@, baseline_active@),
{
    let mut targets: Vec<(String, String)> = Vec::new();
    let mut i: usize = 0;
    assert(entries(targets@) =~= Seq::empty());
    while i < inventory.len()
        invariant
            i <= inventory@.len(),
            entries(targets@) == standby_sinks(
                inventory@.take(i as int),
                keep@,
                baseline_active@,
            ),
        decreases inventory@.len() - i,
    {
        assert(inventory@.take(i + 1).drop_last() =~= inventory@.take(i as int));
        let t = &inventory[i];
        if !t.active && t.external_physical && !has_key(keep, t.key) && !has_key(
            baseline_active,
            t.key,
        ) {
            if let Some(id) = instance_id_from_interface_path(t.monitor_device_path.as_str()) {
                let mut name: String = t.friendly.clone();
                name.append(" (");
                name.append(t.tech);
                name.append(")");
                add_entry(&mut targets, (id, name));
            }
        }
        i = i + 1;
    }
    assert(inventory@.take(inventory@.len() as int) =~= inventory@);
    targets
}

/// The path was part of the desktop, and is not the one that is kept.
pub open spec fn was_deactivated(p: SavedPath, keep: CcdTargetKey) -> bool {
    p.key != keep && p.flags & DISPLAYCONFIG_PATH_ACTIVE != 0
}

/// The monitors of the paths that were part of the desktop, each once.
pub open spec fn deactivated(saved: Seq<SavedPath>, keep: CcdTargetKey) -> Seq<
    (Seq<char>, Seq<char>),
>
    decreases saved.len(),
{
    if saved.len() == 0 {
        Seq::empty()
    } else {
        let before = deactivated(saved.drop_last(), keep);
        let p = saved.last();
        match p.monitor {
            Some(hit) => if was_deactivated(p, keep) {
                with_entry(before, entry(hit))
            } else {
                before
            },
            None => before,
        }
    }
}

/// Pick the monitors of the operator's displays that the stream switched off.
pub fn select_deactivated(saved: &[SavedPath], keep: CcdTargetKey) -> (targets: Vec<
    (String, String),
>)
    ensures
        entries(targets@) == deactivated(saved@, keep),
{
    let mut targets: Vec<(String, String)> = Vec::new();
    let mut i: usize = 0;
    assert(entries(targets@) =~= Seq::empty());
    while i < saved.len()
        invariant
            i <= saved@.len(),
            entries(targets@) == deactivated(saved@.take(i as int), keep),
        decreases saved@.len() - i,
    {
        assert(saved@.take(i + 1).drop_last() =~= saved@.take(i as int));
        let p = &saved[i];
        if p.key != keep && p.flags & DISPLAYCONFIG_PATH_ACTIVE != 0 {
            if let Some(hit) = &p.monitor {
                add_entry(&mut targets, (hit.0.clone(), hit.1.clone()));
            }
        }
        i = i + 1;
    }
    assert(saved@.take(saved@.len() as int) =~= saved@);
    targets
}

/// What is to be disabled, and the journal to write first. Nothing to disable
/// leaves the journal alone.
#[derive(Debug)]
pub struct DisablePlan {
    pub journal: Option<Vec<String>>,
    pub targets: Vec<(String, String)>,
}

/// The journal with the instances of `targets` added, each once.
pub open spec fn journaled(
    journal: Seq<Seq<char>>,
    targets: Seq<(Seq<char>, Seq<char>)>,
) -> Seq<Seq<char>>
    decreases targets.len(),
{
    if targets.len() == 0 {
        journal
    } else {
        let before = journaled(journal, targets.drop_last());
        let id = targets.last().0;
        if before.contains(id) {
            before
        } else {
            before.push(id)
        }
    }
}

impl DisablePlan {
    /// The plan disables `targets` over a journal that lists `journal`.
    pub open spec fn covers(
        self,
        targets: Seq<(Seq<char>, Seq<char>)>,
        journal: Seq<Seq<char>>,
    ) -> bool {
        &&& entries(self.targets@) == targets
        &&& match self.journal {
            Some(ids) => targets.len() > 0 && texts(ids@) == journaled(journal, targets),
            None => targets.len() == 0,
        }
    }
}

fn has_text(list: &Vec<String>, text: &String) -> (r: bool)
    ensures
        r == texts(list@).contains(text@),
{
    let mut i: usize = 0;
    while i < list.len()
        invariant
            i <= list@.len(),
            forall|j: int| 0 <= j < i ==> (#[trigger] list@[j])@ != text@,
        decreases list@.len() - i,
    {
        if list[i] == *text {
            assert(texts(list@)[i as int] == text@);
            return true;
        }
        i = i + 1;
    }
    assert forall|j: int| 0 <= j < texts(list@).len() implies texts(list@)[j] != text@ by {
        assert(list@[j]@ != text@);
    }
    false
}

/// Journal first: a crash after that puts back too much, never too little.
fn plan(targets: Vec<(String, String)>, journal: Vec<String>) -> (p: DisablePlan)
    ensures
        p.covers(entries(targets@), texts(journal@)),
{
    if targets.len() == 0 {
        return DisablePlan { journal: None, targets };
    }
    let ghost was = texts(journal@);
    let mut journal = journal;
    let mut i: usize = 0;
    assert(entries(targets@).take(0) =~= Seq::empty());
    while i < targets.len()
        invariant
            i <= targets@.len(),
            texts(journal@) == journaled(was, entries(targets@).take(i as int)),
        decreases targets@.len() - i,
    {
        let ghost all = entries(targets@);
        let ghost before = texts(journal@);
        assert(all.take(i + 1).drop_last() =~= all.take(i as int));
        if !has_text(&journal, &targets[i].0) {
            journal.push(targets[i].0.clone());
            assert(texts(journal@) =~= before.push(all[i as int].0));
        }
        i = i + 1;
    }
    assert(entries(targets@).take(targets@.len() as int) =~= entries(targets@));
    DisablePlan { journal: Some(journal), targets }
}

/// Plan the disabling of the operator's displays that the stream switched
/// off. `journal` lists what is outstanding.
pub fn disable_for_deactivated(
    saved: &[SavedPath],
    keep: CcdTargetKey,
    journal: Vec<String>,
) -> (p: DisablePlan)
    ensures
        p.covers(deactivated(saved@, keep), texts(journal@)),
{
    plan(select_deactivated(saved, keep), journal)
}

/// Plan the disabling of standby sinks. `journal` lists what is outstanding.
pub fn disable_connected_inactive(
    inventory: &[TargetInventory],
    keep: &[CcdTargetKey],
    baseline_active: &[CcdTargetKey],
    journal: Vec<String>,
) -> (p: DisablePlan)
    ensures
        p.covers(standby_sinks(inventory@, keep@, baseline_active@), texts(journal@)),
{
    plan(select_connected_inactive(inventory, keep, baseline_active), journal)
}

/// The instances whose turn `done` says came true.
pub open spec fn those(ids: Seq<Seq<char>>, done: Seq<bool>) -> Seq<Seq<char>>
    decreases ids.len(),
{
    if ids.len() == 0 {
        Seq::empty()
    } else {
        let before = those(ids.drop_last(), done);
        if done[ids.len() - 1] {
            before.push(ids.last())
        } else {
            before
        }
    }
}

fn chosen(ids: &[String], done: &[bool]) -> (r: Vec<String>)
    requires
        ids@.len() == done@.len(),
    ensures
        texts(r@) == those(texts(ids@), done@),
{
    let mut r: Vec<String> = Vec::new();
    let mut i: usize = 0;
    assert(texts(r@) =~= Seq::empty());
    assert(texts(ids@).take(0) =~= Seq::empty());
    while i < ids.len()
        invariant
            i <= ids@.len() == done@.len(),
            texts(r@) == those(texts(ids@).take(i as int), done@),
        decreases ids@.len() - i,
    {
        let ghost all = texts(ids@);
        let ghost before = texts(r@);
        assert(all.take(i + 1).drop_last() =~= all.take(i as int));
        if done[i] {
            r.push(ids[i].clone());
            assert(texts(r@) =~= before.push(all[i as int]));
        }
        i = i + 1;
    }
    assert(texts(ids@).take(ids@.len() as int) =~= texts(ids@));
    r
}

/// The instances among `targets` that were disabled.
pub open spec fn taken_out(targets: Seq<(Seq<char>, Seq<char>)>, done: Seq<bool>) -> Seq<Seq<char>> {
    those(targets.map_values(|e: (Seq<char>, Seq<char>)| e.0), done)
}

/// Which of the disable attempts took: the instances to put back at the end
/// of the stream.
pub fn disabled(targets: &[(String, String)], done: &[bool]) -> (ids: Vec<String>)
    requires
        targets@.len() == done@.len(),
    ensures
        texts(ids@) == taken_out(entries(targets@), done@),
        texts(ids@) == those(
            entries(targets@).map_values(|e: (Seq<char>, Seq<char>)| e.0),
            done@,
        ),
{
    let mut all: Vec<String> = Vec::new();
    let mut i: usize = 0;
    while i < targets.len()
        invariant
            i <= targets@.len(),
            all@.len() == i,
            forall|j: int| 0 <= j < i ==> (#[trigger] all@[j])@ == targets@[j].0@,
        decreases targets@.len() - i,
    {
        all.push(targets[i].0.clone());
        i = i + 1;
    }
    assert(texts(all@) =~= entries(targets@).map_values(|e: (Seq<char>, Seq<char>)| e.0));
    chosen(all.as_slice(), done)
}

/// What re-enabling came to.
#[derive(Debug)]
pub struct EnableOutcome {
    /// How many were put back.
    pub count: u32,
    /// What is still outstanding.
    pub journal: Vec<String>,
}

/// How many of `done` came true, as far as the counter goes.
pub open spec fn successes(done: Seq<bool>) -> u32
    decreases done.len(),
{
    if done.len() == 0 {
        0
    } else if done.last() {
        crate::math::counted(successes(done.drop_last()))
    } else {
        successes(done.drop_last())
    }
}

/// The journal without the instances in `gone`.
pub open spec fn without(journal: Seq<Seq<char>>, gone: Seq<Seq<char>>) -> Seq<Seq<char>>
    decreases journal.len(),
{
    if journal.len() == 0 {
        Seq::empty()
    } else {
        let before = without(journal.drop_last(), gone);
        if gone.contains(journal.last()) {
            before
        } else {
            before.push(journal.last())
        }
    }
}

/// The journal after `ids` were tried: without those that were put back.
pub open spec fn still_out(
    journal: Seq<Seq<char>>,
    ids: Seq<Seq<char>>,
    done: Seq<bool>,
) -> Seq<Seq<char>> {
    without(journal, those(ids, done))
}

/// Drop what was put back from the journal. `done` says of each of `ids`
/// whether it was: one that was not keeps its entry, which is all that is
/// left to retry from.
pub fn enable_instances(ids: &[String], done: &[bool], journal: Vec<String>) -> (r: EnableOutcome)
    requires
        ids@.len() == done@.len(),
    ensures
        r.count == successes(done@),
        texts(r.journal@) == still_out(texts(journal@), texts(ids@), done@),
        texts(r.journal@) == without(texts(journal@), those(texts(ids@), done@)),
{
    let back: Vec<String> = chosen(ids, done);
    let mut count: u32 = 0;
    let mut i: usize = 0;
    assert(done@.take(0) =~= Seq::empty());
    while i < done.len()
        invariant
            i <= done@.len(),
            count == successes(done@.take(i as int)),
        decreases done@.len() - i,
    {
        assert(done@.take(i + 1).drop_last() =~= done@.take(i as int));
        if done[i] {
            count = crate::math::counted(count);
        }
        i = i + 1;
    }
    assert(done@.take(done@.len() as int) =~= done@);
    let mut left: Vec<String> = Vec::new();
    let mut k: usize = 0;
    assert(texts(left@) =~= Seq::empty());
    assert(texts(journal@).take(0) =~= Seq::empty());
    while k < journal.len()
        invariant
            k <= journal@.len(),
            texts(back@) == those(texts(ids@), done@),
            texts(left@) == without(texts(journal@).take(k as int), texts(back@)),
        decreases journal@.len() - k,
    {
        let ghost all = texts(journal@);
        let ghost before = texts(left@);
        assert(all.take(k + 1).drop_last() =~= all.take(k as int));
        if !has_text(&back, &journal[k]) {
            left.push(journal[k].clone());
            assert(texts(left@) =~= before.push(all[k as int]));
        }
        k = k + 1;
    }
    assert(texts(journal@).take(journal@.len() as int) =~= texts(journal@));
    EnableOutcome { count, journal: left }
}

/// `ids` is what a host that starts must put back.
pub open spec fn recovers(journal: Seq<Seq<char>>, ids: Option<Vec<String>>) -> bool {
    match ids {
        Some(ids) => texts(ids@) == journal && journal.len() > 0,
        None => journal.len() == 0,
    }
}

/// What a host that starts must put back: everything a journal lists.
pub fn startup_recover(journal: Vec<String>) -> (ids: Option<Vec<String>>)
    ensures
        recovers(texts(journal@), ids),
        match ids {
            Some(ids) => texts(ids@) == texts(journal@) && journal@.len() > 0,
            None => journal@.len() == 0,
        },
{
    if journal.len() == 0 {
        None
    } else {
        Some(journal)
    }
}

/// A monitor that is picked belongs to a target that is outside the desktop,
/// external, not kept, and was outside the desktop before anything changed.
pub proof fn law_an_operator_display_is_never_picked(
    inventory: Seq<TargetInventory>,
    keep: Seq<CcdTargetKey>,
    baseline_active: Seq<CcdTargetKey>,
    hit: (Seq<char>, Seq<char>),
)
    requires
        standby_sinks(inventory, keep, baseline_active).contains(hit),
    ensures
        exists|i: int|
            0 <= i < inventory.len() && is_standby_sink(
                #[trigger] inventory[i],
                keep,
                baseline_active,
            ) && target_entry(inventory[i]) == hit,
    decreases inventory.len(),
{
    let fewer = inventory.drop_last();
    let before = standby_sinks(fewer, keep, baseline_active);
    let all = standby_sinks(inventory, keep, baseline_active);
    if before.contains(hit) {
        law_an_operator_display_is_never_picked(fewer, keep, baseline_active, hit);
        let i = choose|i: int|
            0 <= i < fewer.len() && is_standby_sink(#[trigger] fewer[i], keep, baseline_active)
                && target_entry(fewer[i]) == hit;
        assert(inventory[i] == fewer[i]);
    } else {
        let k = choose|k: int| 0 <= k < all.len() && all[k] == hit;
        if k < before.len() {
            assert(before[k] == hit);
        }
        assert(inventory[inventory.len() - 1] == inventory.last());
    }
}

/// Every standby sink with a device is picked.
pub proof fn law_every_sink_is_picked(
    inventory: Seq<TargetInventory>,
    keep: Seq<CcdTargetKey>,
    baseline_active: Seq<CcdTargetKey>,
    i: int,
)
    requires
        0 <= i < inventory.len(),
        is_standby_sink(inventory[i], keep, baseline_active),
        instance_named(inventory[i].monitor_device_path@) is Some,
    ensures
        standby_sinks(inventory, keep, baseline_active).contains(target_entry(inventory[i])),
    decreases inventory.len(),
{
    let fewer = inventory.drop_last();
    let before = standby_sinks(fewer, keep, baseline_active);
    let hit = target_entry(inventory[i]);
    if i < fewer.len() {
        law_every_sink_is_picked(fewer, keep, baseline_active, i);
        let k = choose|k: int| 0 <= k < before.len() && before[k] == hit;
        assert(standby_sinks(inventory, keep, baseline_active)[k] == hit);
    } else if !before.contains(hit) {
        assert(before.push(hit)[before.len() as int] == hit);
    }
}

proof fn lemma_journal_keeps(
    journal: Seq<Seq<char>>,
    targets: Seq<(Seq<char>, Seq<char>)>,
    id: Seq<char>,
)
    requires
        journal.contains(id) || exists|i: int|
            0 <= i < targets.len() && (#[trigger] targets[i]).0 == id,
    ensures
        journaled(journal, targets).contains(id),
    decreases targets.len(),
{
    if targets.len() > 0 {
        let fewer = targets.drop_last();
        let before = journaled(journal, fewer);
        if targets.last().0 == id {
            if !before.contains(id) {
                assert(before.push(id)[before.len() as int] == id);
            }
        } else {
            if !journal.contains(id) {
                let i = choose|i: int| 0 <= i < targets.len() && (#[trigger] targets[i]).0 == id;
                assert(fewer[i].0 == id);
            }
            lemma_journal_keeps(journal, fewer, id);
            let k = choose|k: int| 0 <= k < before.len() && before[k] == id;
            assert(journaled(journal, targets)[k] == id);
        }
    }
}

/// Whatever is disabled is journaled before, and nothing outstanding is lost
/// from the journal.
pub proof fn law_the_journal_covers_what_is_disabled(
    journal: Seq<Seq<char>>,
    targets: Seq<(Seq<char>, Seq<char>)>,
    id: Seq<char>,
)
    ensures
        journal.contains(id) ==> journaled(journal, targets).contains(id),
        forall|i: int|
            0 <= i < targets.len() ==> journaled(journal, targets).contains(
                (#[trigger] targets[i]).0,
            ),
{
    if journal.contains(id) {
        lemma_journal_keeps(journal, targets, id);
    }
    assert forall|i: int| 0 <= i < targets.len() implies journaled(journal, targets).contains(
        (#[trigger] targets[i]).0,
    ) by {
        lemma_journal_keeps(journal, targets, targets[i].0);
    }
}

/// An entry leaves the journal exactly if its instance was put back: one that
/// failed stays to be retried.
pub proof fn law_only_what_came_back_leaves(
    journal: Seq<Seq<char>>,
    gone: Seq<Seq<char>>,
    id: Seq<char>,
)
    ensures
        without(journal, gone).contains(id) <==> journal.contains(id) && !gone.contains(id),
    decreases journal.len(),
{
    if journal.len() > 0 {
        let fewer = journal.drop_last();
        let before = without(fewer, gone);
        let all = without(journal, gone);
        law_only_what_came_back_leaves(fewer, gone, id);
        if journal.contains(id) && !gone.contains(id) {
            if journal.last() == id {
                assert(all[before.len() as int] == id);
            } else {
                let i = choose|i: int| 0 <= i < journal.len() && journal[i] == id;
                assert(fewer[i] == id);
                let k = choose|k: int| 0 <= k < before.len() && before[k] == id;
                assert(all[k] == id);
            }
        }
        if all.contains(id) {
            let k = choose|k: int| 0 <= k < all.len() && all[k] == id;
            if k < before.len() {
                assert(before[k] == id);
                let i = choose|i: int| 0 <= i < fewer.len() && fewer[i] == id;
                assert(journal[i] == id);
            } else {
                assert(journal[journal.len() - 1] == id);
            }
        }
    }
}

proof fn lemma_class_stands_last(path: Seq<char>, cut: int, n: int)
    requires
        4 <= cut < n <= path.len(),
        class_at(path, cut),
        forall|i: int| cut < i ==> !class_at(path, i),
    ensures
        last_class(path, n) == Some(cut),
    decreases n,
{
    if n - 1 > cut {
        assert(!class_at(path, n - 1));
        lemma_class_stands_last(path, cut, n - 1);
    }
}

proof fn lemma_no_class(path: Seq<char>, n: int)
    requires
        forall|i: int| !class_at(path, i),
    ensures
        last_class(path, n) is None,
    decreases n,
{
    if n > 4 {
        assert(!class_at(path, n - 1));
        lemma_no_class(path, n - 1);
    }
}

/// A device interface path names the instance between its prefix and its last
/// interface class, with the separators of an instance.
pub proof fn law_an_instance_stands_before_its_class(id: Seq<char>, class: Seq<char>, i: int)
    requires
        forall|k: int|
            0 <= k < class.len() - 1 ==> !(#[trigger] class[k] == '#' && class[k + 1] == '{'),
    ensures
        ({
            let path = seq!['\\', '\\', '?', '\\'] + id + seq!['#', '{'] + class;
            &&& instance_named(path) matches Some(named) && named.len() == id.len() && (0 <= i
                < id.len() ==> {
                &&& id[i] == '#' ==> named[i] == '\\'
                &&& id[i] != '#' ==> named[i] == id[i]
            })
        }),
{
    let path = seq!['\\', '\\', '?', '\\'] + id + seq!['#', '{'] + class;
    let cut: int = 4 + id.len() as int;
    assert(path[cut] == '#' && path[cut + 1] == '{');
    assert(class_at(path, cut));
    assert forall|k: int| cut < k implies !class_at(path, k) by {
        if k + 1 < path.len() {
            if k > cut + 1 {
                assert(path[k] == class[k - cut - 2]);
                assert(path[k + 1] == class[k - cut - 1]);
            }
        }
    }
    lemma_class_stands_last(path, cut, path.len() as int);
    assert(path.subrange(4, cut) =~= id);
}

/// A path that does not begin as one, or holds no interface class, names no
/// instance.
pub proof fn law_other_paths_name_nothing(path: Seq<char>)
    ensures
        path.len() < 4 ==> instance_named(path) is None,
        path.len() >= 4 && (path[0] != '\\' || path[1] != '\\' || path[2] != '?' || path[3]
            != '\\') ==> instance_named(path) is None,
        (forall|k: int|
            4 <= k < path.len() - 1 ==> !(#[trigger] path[k] == '#' && path[k + 1] == '{'))
            ==> instance_named(path) is None,
{
    if forall|k: int| 4 <= k < path.len() - 1 ==> !(#[trigger] path[k] == '#' && path[k + 1] == '{') {
        assert forall|k: int| !class_at(path, k) by {
            if 4 <= k && k + 1 < path.len() {
                assert(path[k] != '#' || path[k + 1] != '{');
            }
        }
        lemma_no_class(path, path.len() as int);
    }
}

/// An entry is added once: it is there afterwards, and so is all that was.
pub proof fn law_an_entry_is_added_once(
    list: Seq<(Seq<char>, Seq<char>)>,
    hit: (Seq<char>, Seq<char>),
    i: int,
)
    ensures
        ({
            let after = with_entry(list, hit);
            &&& list.contains(hit) ==> after == list
            &&& !list.contains(hit) ==> after.len() == list.len() + 1 && after[list.len() as int]
                == hit
            &&& 0 <= i < list.len() ==> after[i] == list[i]
        }),
{
}

/// A target is picked where it is outside the desktop, on a cable, not kept,
/// not part of the desktop before, and has a device; under its instance, and
/// named with how it is connected. Any other is passed over.
pub proof fn law_a_standby_sink_is_dark_and_on_a_cable(
    inventory: Seq<TargetInventory>,
    t: TargetInventory,
    keep: Seq<CcdTargetKey>,
    baseline: Seq<CcdTargetKey>,
)
    ensures
        standby_sinks(Seq::empty(), keep, baseline).len() == 0,
        ({
            let before = standby_sinks(inventory, keep, baseline);
            let after = standby_sinks(inventory.push(t), keep, baseline);
            let named = instance_named(t.monitor_device_path@);
            let picked = !t.active && t.external_physical && !keep.contains(t.key)
                && !baseline.contains(t.key) && named is Some;
            &&& !picked ==> after == before
            &&& picked ==> after == with_entry(
                before,
                (named->0, t.friendly@ + " ("@ + t.tech@ + ")"@),
            )
        }),
{
    assert(inventory.push(t).drop_last() =~= inventory);
}

/// A saved path's monitor is picked where it was part of the desktop, is not
/// the one that is kept, and has a device.
pub proof fn law_a_deactivated_display_was_in_the_desktop(
    saved: Seq<SavedPath>,
    p: SavedPath,
    keep: CcdTargetKey,
)
    ensures
        deactivated(Seq::empty(), keep).len() == 0,
        p.flags % 2 == 0 || p.key == keep || p.monitor is None ==> deactivated(saved.push(p), keep)
            == deactivated(saved, keep),
        p.flags % 2 == 1 && p.key != keep ==> (p.monitor matches Some(hit) ==> deactivated(
            saved.push(p),
            keep,
        ) == with_entry(deactivated(saved, keep), (hit.0@, hit.1@))),
{
    let flags = p.flags;
    assert(flags & 1 != 0 <==> flags % 2 == 1) by (bit_vector);
    assert(saved.push(p).drop_last() =~= saved);
}

/// A plan disables its targets, in order, over a journal that lists each of
/// them; nothing to disable leaves the journal alone.
pub proof fn law_a_plan_is_journaled_first(
    plan: DisablePlan,
    targets: Seq<(Seq<char>, Seq<char>)>,
    journal: Seq<Seq<char>>,
    i: int,
)
    requires
        plan.covers(targets, journal),
    ensures
        entries(plan.targets@) == targets,
        targets.len() == 0 <==> plan.journal is None,
        plan.journal matches Some(ids) ==> {
            &&& 0 <= i < targets.len() ==> texts(ids@).contains(targets[i].0)
            &&& 0 <= i < journal.len() ==> texts(ids@).contains(journal[i])
        },
{
    if 0 <= i < journal.len() {
        assert(journal.contains(journal[i]));
        law_the_journal_covers_what_is_disabled(journal, targets, journal[i]);
    }
    law_the_journal_covers_what_is_disabled(journal, targets, Seq::empty());
}

/// A target adds its instance to the journal once, and nothing else.
pub proof fn law_a_target_is_journaled_once(
    journal: Seq<Seq<char>>,
    targets: Seq<(Seq<char>, Seq<char>)>,
    hit: (Seq<char>, Seq<char>),
)
    ensures
        journaled(journal, Seq::empty()) == journal,
        journaled(journal, targets).contains(hit.0) ==> journaled(journal, targets.push(hit))
            == journaled(journal, targets),
        !journaled(journal, targets).contains(hit.0) ==> journaled(journal, targets.push(hit))
            == journaled(journal, targets).push(hit.0),
{
    assert(targets.push(hit).drop_last() =~= targets);
}

/// What was done is counted and chosen one by one, in order: the instances of
/// those that took, and how many they are.
pub proof fn law_what_took_is_chosen(
    ids: Seq<Seq<char>>,
    done: Seq<bool>,
    id: Seq<char>,
    took: bool,
)
    requires
        ids.len() == done.len(),
        successes(done) < u32::MAX,
    ensures
        those(Seq::empty(), Seq::empty()).len() == 0 && successes(Seq::empty()) == 0,
        took ==> those(ids.push(id), done.push(took)) == those(ids, done).push(id) && successes(
            done.push(took),
        ) == successes(done) + 1,
        !took ==> those(ids.push(id), done.push(took)) == those(ids, done) && successes(
            done.push(took),
        ) == successes(done),
{
    assert(ids.push(id).drop_last() =~= ids);
    assert(done.push(took).drop_last() =~= done);
    lemma_those_read_their_own(ids, done, done.push(took));
}

proof fn lemma_those_read_their_own(ids: Seq<Seq<char>>, a: Seq<bool>, b: Seq<bool>)
    requires
        ids.len() <= a.len(),
        ids.len() <= b.len(),
        forall|i: int| 0 <= i < ids.len() ==> a[i] == b[i],
    ensures
        those(ids, a) == those(ids, b),
    decreases ids.len(),
{
    if ids.len() > 0 {
        lemma_those_read_their_own(ids.drop_last(), a, b);
    }
}

/// What is put back at the end of a stream are the instances it took out, and
/// one that is put back leaves the journal; one that failed stays.
pub proof fn law_a_journal_keeps_what_failed(
    journal: Seq<Seq<char>>,
    ids: Seq<Seq<char>>,
    done: Seq<bool>,
    id: Seq<char>,
)
    ensures
        still_out(journal, ids, done).contains(id) <==> journal.contains(id) && !those(
            ids,
            done,
        ).contains(id),
{
    law_only_what_came_back_leaves(journal, those(ids, done), id);
}

/// The instances taken out are those of the targets that took, by their
/// instance and not their name.
pub proof fn law_what_is_taken_out_is_an_instance(
    targets: Seq<(Seq<char>, Seq<char>)>,
    done: Seq<bool>,
    hit: (Seq<char>, Seq<char>),
)
    requires
        targets.len() == done.len(),
    ensures
        taken_out(targets.push(hit), done.push(true)) == taken_out(targets, done).push(hit.0),
        taken_out(targets.push(hit), done.push(false)) == taken_out(targets, done),
{
    let all = targets.push(hit).map_values(|e: (Seq<char>, Seq<char>)| e.0);
    let before = targets.map_values(|e: (Seq<char>, Seq<char>)| e.0);
    assert(all.drop_last() =~= before);
    assert(all.last() == hit.0);
    lemma_those_read_their_own(before, done, done.push(true));
    lemma_those_read_their_own(before, done, done.push(false));
}

/// A host that starts puts back everything its journal lists, and nothing
/// where it lists nothing.
pub proof fn law_a_start_puts_everything_back(journal: Seq<Seq<char>>, ids: Option<Vec<String>>)
    requires
        recovers(journal, ids),
    ensures
        journal.len() == 0 <==> ids is None,
        ids matches Some(ids) ==> texts(ids@) == journal,
{
}

} // verus!
