//! Crash journals: what a host that dies leaves behind for the next one to
//! undo.

use vstd::prelude::*;

verus! {

/// What a list of strings holds.
pub open spec fn texts(list: Seq<String>) -> Seq<Seq<char>> {
    list.map_values(|s: String| s@)
}

/// What `serde_json::from_slice` reads as a list of strings. None where the
/// bytes are not one.
pub uninterp spec fn ids_in(bytes: Seq<u8>) -> Option<Seq<Seq<char>>>;

/// What `serde_json::to_vec_pretty` writes for a list of strings.
pub uninterp spec fn ids_text(ids: Seq<Seq<char>>) -> Seq<u8>;

/// What `serde_json::from_slice` reads under `key`, where the bytes are an
/// object that holds an array there: an integer for each item that is one and
/// fits, none for the others.
pub uninterp spec fn numbers_at(bytes: Seq<u8>, key: Seq<char>) -> Option<Seq<Option<i64>>>;

/// What `serde_json::Value` displays as for an object of a flag and a list.
pub uninterp spec fn marker_text(
    flag: Seq<char>,
    set: bool,
    list: Seq<char>,
    numbers: Seq<i32>,
) -> Seq<u8>;

/// Calls `serde_json::from_slice` for a list of strings. It claims that the
/// result is a function of the bytes, and nothing of what that function is.
#[verifier::external_body]
fn parse_ids(bytes: &[u8]) -> (r: Option<Vec<String>>)
    ensures
        match r {
            Some(ids) => ids_in(bytes@) == Some(texts(ids@)),
            None => ids_in(bytes@) is None,
        },
{
    serde_json::from_slice::<Vec<String>>(bytes).ok()
}

/// Calls `serde_json::to_vec_pretty` on a list of strings. It claims that
/// this succeeds, which it does for anything but a map with keys that are no
/// strings or a type that refuses, that the bytes are a function of the
/// strings, and that they read back as the same strings.
#[verifier::external_body]
fn print_ids(ids: &Vec<String>) -> (r: Option<Vec<u8>>)
    ensures
        r is Some,
        r->0@ == ids_text(texts(ids@)),
        ids_in(r->0@) == Some(texts(ids@)),
{
    serde_json::to_vec_pretty(ids).ok()
}

/// Calls `serde_json::from_slice` for any value, and hands out the items of
/// the array under `key`, each as the integer it is. It claims that the
/// result is a function of the bytes and the key, and nothing of what that
/// function is.
#[verifier::external_body]
fn parse_numbers(bytes: &[u8], key: &str) -> (r: Option<Vec<Option<i64>>>)
    ensures
        match r {
            Some(numbers) => numbers_at(bytes@, key@) == Some(numbers@),
            None => numbers_at(bytes@, key@) is None,
        },
{
    let value: serde_json::Value = serde_json::from_slice(bytes).ok()?;
    let items = value.get(key)?.as_array()?;
    Some(items.iter().map(|item| item.as_i64()).collect())
}

/// Displays the `serde_json::Value` of an object with a flag and a list. It
/// claims that the text is a function of the four, and that the list reads
/// back from it.
#[verifier::external_body]
fn print_marker(flag: &str, set: bool, list: &str, numbers: &Vec<i32>) -> (bytes: Vec<u8>)
    ensures
        bytes@ == marker_text(flag@, set, list@, numbers@),
        numbers_at(bytes@, list@) == Some(widened(numbers@)),
{
    let mut object = serde_json::Map::new();
    object.insert(flag.to_owned(), serde_json::Value::from(set));
    object.insert(list.to_owned(), serde_json::Value::from(numbers.clone()));
    serde_json::Value::Object(object).to_string().into_bytes()
}

/// Each number as a wider one.
pub open spec fn widened(numbers: Seq<i32>) -> Seq<Option<i64>> {
    numbers.map_values(|n: i32| Some(n as i64))
}

/// What is done to a journal file.
#[derive(Debug, PartialEq, Eq)]
pub enum JournalWrite {
    /// Nothing is outstanding: no file.
    Remove,
    Write(Vec<u8>),
}

/// The outstanding instances a journal lists. A missing or unreadable journal
/// lists none.
pub open spec fn outstanding(file: Option<Seq<u8>>) -> Seq<Seq<char>> {
    match file {
        Some(bytes) => match ids_in(bytes) {
            Some(ids) => ids,
            None => Seq::empty(),
        },
        None => Seq::empty(),
    }
}

/// The instances of a parsed journal.
pub open spec fn instances(parsed: Option<Vec<String>>) -> Seq<Seq<char>> {
    match parsed {
        Some(list) => texts(list@),
        None => Seq::empty(),
    }
}

/// What a parsed journal lists: nothing where it could not be parsed.
pub fn listed(parsed: Option<Vec<String>>) -> (ids: Vec<String>)
    ensures
        texts(ids@) == instances(parsed),
        texts(ids@) == match parsed {
            Some(list) => texts(list@),
            None => Seq::empty(),
        },
{
    match parsed {
        Some(list) => list,
        None => {
            let none: Vec<String> = Vec::new();
            assert(texts(none@) =~= Seq::empty());
            none
        },
    }
}

/// Read a journal file's contents. None stands for a file that is not there.
pub fn read_journal(file: Option<&[u8]>) -> (ids: Vec<String>)
    ensures
        texts(ids@) == outstanding(
            match file {
                Some(bytes) => Some(bytes@),
                None => None,
            },
        ),
{
    match file {
        Some(bytes) => listed(parse_ids(bytes)),
        None => listed(None),
    }
}

/// `w` is what the journal file becomes when `ids` are outstanding.
pub open spec fn becomes(ids: Seq<Seq<char>>, w: JournalWrite) -> bool {
    match w {
        JournalWrite::Remove => ids.len() == 0,
        JournalWrite::Write(bytes) => ids.len() > 0 && bytes@ == ids_text(ids) && outstanding(
            Some(bytes@),
        ) == ids,
    }
}

/// What the journal file becomes when `ids` are outstanding.
pub fn write_journal(ids: &Vec<String>) -> (w: JournalWrite)
    ensures
        becomes(texts(ids@), w),
        w is Remove <==> ids@.len() == 0,
        w matches JournalWrite::Write(bytes) ==> bytes@ == ids_text(texts(ids@)) && outstanding(
            Some(bytes@),
        ) == texts(ids@),
{
    if ids.len() == 0 {
        return JournalWrite::Remove;
    }
    match print_ids(ids) {
        Some(bytes) => JournalWrite::Write(bytes),
        None => JournalWrite::Write(Vec::new()),
    }
}

/// The connectors among what a marker lists: those whose number is a
/// connector's.
pub open spec fn connectors_among(numbers: Seq<Option<i64>>) -> Seq<i32>
    decreases numbers.len(),
{
    if numbers.len() == 0 {
        Seq::empty()
    } else {
        let before = connectors_among(numbers.drop_last());
        match numbers.last() {
            Some(n) => if i32::MIN <= n <= i32::MAX {
                before.push(n as i32)
            } else {
                before
            },
            None => before,
        }
    }
}

/// The lease in a marker. One without a list, or one that cannot be read,
/// leases none.
pub open spec fn lease_among(found: Option<Seq<Option<i64>>>) -> Seq<i32> {
    match found {
        Some(numbers) => connectors_among(numbers),
        None => Seq::empty(),
    }
}

/// The lease in a marker's bytes.
pub open spec fn lease_in(bytes: Seq<u8>) -> Seq<i32> {
    lease_among(numbers_at(bytes, "connectors"@))
}

/// The lease among what a marker lists.
pub fn lease_of(found: Option<Vec<Option<i64>>>) -> (connectors: Vec<i32>)
    ensures
        connectors@ == lease_among(
            match found {
                Some(numbers) => Some(numbers@),
                None => None,
            },
        ),
{
    let mut connectors: Vec<i32> = Vec::new();
    if let Some(numbers) = found {
        let mut i: usize = 0;
        while i < numbers.len()
            invariant
                i <= numbers@.len(),
                connectors@ == connectors_among(numbers@.take(i as int)),
            decreases numbers@.len() - i,
        {
            assert(numbers@.take(i + 1).drop_last() =~= numbers@.take(i as int));
            if let Some(n) = numbers[i] {
                if i32::MIN as i64 <= n && n <= i32::MAX as i64 {
                    connectors.push(n as i32);
                }
            }
            i = i + 1;
        }
        assert(numbers@.take(numbers@.len() as int) =~= numbers@);
    }
    connectors
}

proof fn lemma_widened_narrow_back(numbers: Seq<i32>)
    ensures
        connectors_among(widened(numbers)) == numbers,
    decreases numbers.len(),
{
    if numbers.len() > 0 {
        lemma_widened_narrow_back(numbers.drop_last());
        assert(widened(numbers).drop_last() =~= widened(numbers.drop_last()));
        assert(numbers.drop_last().push(numbers.last()) =~= numbers);
    } else {
        assert(connectors_among(widened(numbers)) =~= numbers);
    }
}

/// The bytes of a marker that leases `connectors`.
pub open spec fn marker_of(connectors: Seq<i32>) -> Seq<u8> {
    marker_text("locked"@, true, "connectors"@, connectors)
}

/// The marker of a lock in force, with the connectors it leased. They read
/// back from it.
pub fn encode_journal(connectors: &Vec<i32>) -> (bytes: Vec<u8>)
    ensures
        bytes@ == marker_of(connectors@),
        bytes@ == marker_text("locked"@, true, "connectors"@, connectors@),
        lease_in(bytes@) == connectors@,
{
    let bytes: Vec<u8> = print_marker("locked", true, "connectors", connectors);
    proof {
        lemma_widened_narrow_back(connectors@);
    }
    bytes
}

/// The leased connectors in a marker. An older host's marker lists none, and
/// so does one that cannot be read.
pub fn decode_journal(bytes: &[u8]) -> (connectors: Vec<i32>)
    ensures
        connectors@ == lease_in(bytes@),
{
    lease_of(parse_numbers(bytes, "connectors"))
}

/// What is outstanding is what the journal lists; one that is missing or
/// cannot be read lists nothing. An empty list leaves no file, any other one
/// that reads back to it.
pub proof fn law_a_journal_reads_back(ids: Seq<Seq<char>>, w: JournalWrite, bytes: Seq<u8>)
    requires
        becomes(ids, w),
    ensures
        ids.len() == 0 <==> w is Remove,
        w matches JournalWrite::Write(file) ==> outstanding(Some(file@)) == ids,
        outstanding(None).len() == 0,
        ids_in(bytes) is None ==> outstanding(Some(bytes)).len() == 0,
        ids_in(bytes) matches Some(listed) ==> outstanding(Some(bytes)) == listed,
        instances(None).len() == 0,
{
}

/// A marker's lease is its whole numbers that are a connector's, in order; the
/// others are passed over, and no list leases nothing.
pub proof fn law_a_lease_is_what_the_marker_lists(numbers: Seq<Option<i64>>, n: i64)
    ensures
        lease_among(None).len() == 0,
        lease_among(Some(Seq::empty())).len() == 0,
        lease_among(Some(numbers.push(None))) == lease_among(Some(numbers)),
        -0x8000_0000 <= n <= 0x7fff_ffff ==> ({
            let leased = lease_among(Some(numbers.push(Some(n))));
            &&& leased.len() == lease_among(Some(numbers)).len() + 1
            &&& leased.last() == n
            &&& leased.drop_last() == lease_among(Some(numbers))
        }),
        n < -0x8000_0000 || n > 0x7fff_ffff ==> lease_among(Some(numbers.push(Some(n))))
            == lease_among(Some(numbers)),
{
    assert(numbers.push(None::<i64>).drop_last() =~= numbers);
    assert(numbers.push(Some(n)).drop_last() =~= numbers);
    if -0x8000_0000 <= n <= 0x7fff_ffff {
        assert(lease_among(Some(numbers.push(Some(n)))).drop_last() =~= lease_among(Some(numbers)));
    }
}

/// A marker says that the lock is in force, under its own name, and lists the
/// lease under its own, which is where it is read.
pub proof fn law_a_marker_lists_its_lease(connectors: Seq<i32>, bytes: Seq<u8>)
    ensures
        marker_of(connectors) == marker_text("locked"@, true, "connectors"@, connectors),
        lease_in(bytes) == lease_among(numbers_at(bytes, "connectors"@)),
{
}

} // verus!
