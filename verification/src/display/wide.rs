//! Text out of the fixed buffers that drivers fill.

use crate::text::{trimmed, trimmed_text};
use vstd::prelude::*;
use vstd::string::*;
use vstd::utf8::{decode_utf8, valid_utf8};

verus! {

/// The character two halves of a surrogate pair stand for.
pub open spec fn paired(high: u16, low: u16) -> char {
    (0x1_0000 + (high - 0xD800) * 0x400 + (low - 0xDC00)) as char
}

/// The text that UTF-16 units spell, with a replacement character for each
/// half of a pair that stands alone.
pub open spec fn utf16_text(units: Seq<u16>) -> Seq<char>
    decreases units.len(),
{
    if units.len() == 0 {
        Seq::empty()
    } else if units[0] < 0xD800 || units[0] > 0xDFFF {
        seq![units[0] as char] + utf16_text(units.skip(1))
    } else if units[0] < 0xDC00 && units.len() > 1 && 0xDC00 <= units[1] <= 0xDFFF {
        seq![paired(units[0], units[1])] + utf16_text(units.skip(2))
    } else {
        seq!['\u{FFFD}'] + utf16_text(units.skip(1))
    }
}

/// What `String::from_utf8_lossy` makes of these bytes.
pub uninterp spec fn utf8_text(bytes: Seq<u8>) -> Seq<char>;

/// Calls `String::from_utf16_lossy`. It claims that the units are decoded as
/// UTF-16, and that each one that pairs with none becomes U+FFFD.
#[verifier::external_body]
fn decode_wide(units: &[u16]) -> (text: String)
    ensures
        text@ == utf16_text(units@),
{
    String::from_utf16_lossy(units)
}

/// Calls `String::from_utf8_lossy`. It claims that the result is a function
/// of the bytes, and what they encode where they are valid.
#[verifier::external_body]
fn decode_narrow(bytes: &[u8]) -> (text: String)
    ensures
        text@ == utf8_text(bytes@),
        valid_utf8(bytes@) ==> text@ == decode_utf8(bytes@),
{
    String::from_utf8_lossy(bytes).into_owned()
}

/// Where the zero stands that ends the text, or where the buffer ends.
pub open spec fn text_end<T>(buf: Seq<T>, zero: T, n: int) -> int
    decreases buf.len() - n,
{
    if n < 0 || n >= buf.len() || buf[n] == zero {
        n
    } else {
        text_end(buf, zero, n + 1)
    }
}

/// The text in a buffer of wide characters.
pub open spec fn wide_text(buf: Seq<u16>) -> Seq<char> {
    utf16_text(buf.take(text_end(buf, 0, 0)))
}

/// The text in a buffer of bytes.
pub open spec fn narrow_text(buf: Seq<u8>) -> Seq<char> {
    utf8_text(buf.take(text_end(buf, 0, 0)))
}

/// The text in a buffer of wide characters, up to its zero.
pub fn utf16z(buf: &[u16]) -> (text: String)
    ensures
        text@ == wide_text(buf@),
        text@ == utf16_text(buf@.take(text_end(buf@, 0, 0))),
{
    let mut part: Vec<u16> = Vec::new();
    let mut i: usize = 0;
    while i < buf.len() && buf[i] != 0
        invariant
            i <= buf@.len(),
            part@ == buf@.take(i as int),
            text_end(buf@, 0, 0) == text_end(buf@, 0, i as int),
        decreases buf@.len() - i,
    {
        part.push(buf[i]);
        assert(buf@.take(i as int).push(buf@[i as int]) =~= buf@.take(i + 1));
        i = i + 1;
    }
    decode_wide(part.as_slice())
}

/// The text in a buffer of bytes, up to its zero.
pub fn c_str(buf: &[u8]) -> (text: String)
    ensures
        text@ == narrow_text(buf@),
        text@ == utf8_text(buf@.take(text_end(buf@, 0, 0))),
{
    let mut part: Vec<u8> = Vec::new();
    let mut i: usize = 0;
    while i < buf.len() && buf[i] != 0
        invariant
            i <= buf@.len(),
            part@ == buf@.take(i as int),
            text_end(buf@, 0, 0) == text_end(buf@, 0, i as int),
        decreases buf@.len() - i,
    {
        part.push(buf[i]);
        assert(buf@.take(i as int).push(buf@[i as int]) =~= buf@.take(i + 1));
        i = i + 1;
    }
    decode_narrow(part.as_slice())
}

/// The name in a buffer of bytes, without blanks around it.
pub fn name_in(buf: &[u8]) -> (name: String)
    ensures
        name@ == trimmed_text(narrow_text(buf@)),
        name@ == trimmed_text(utf8_text(buf@.take(text_end(buf@, 0, 0)))),
{
    let text: String = c_str(buf);
    String::from_str(trimmed(text.as_str()))
}

proof fn lemma_ends_at<T>(buf: Seq<T>, zero: T, n: int, end: int)
    requires
        0 <= n <= end <= buf.len(),
        forall|i: int| n <= i < end ==> buf[i] != zero,
        end < buf.len() ==> buf[end] == zero,
    ensures
        text_end(buf, zero, n) == end,
    decreases end - n,
{
    if n < end {
        lemma_ends_at(buf, zero, n + 1, end);
    }
}

/// A buffer says what stands before its first zero, whatever stands behind it,
/// and all it holds where it has none.
pub proof fn law_a_zero_ends_the_text(wide: Seq<u16>, narrow: Seq<u8>, rest: Seq<u16>, tail: Seq<u8>)
    requires
        forall|i: int| 0 <= i < wide.len() ==> wide[i] != 0,
        forall|i: int| 0 <= i < narrow.len() ==> narrow[i] != 0,
    ensures
        wide_text(wide) == utf16_text(wide),
        wide_text(wide + seq![0u16] + rest) == utf16_text(wide),
        narrow_text(narrow) == utf8_text(narrow),
        narrow_text(narrow + seq![0u8] + tail) == utf8_text(narrow),
{
    lemma_ends_at(wide, 0, 0, wide.len() as int);
    assert(wide.take(wide.len() as int) =~= wide);
    let w = wide + seq![0u16] + rest;
    lemma_ends_at(w, 0, 0, wide.len() as int);
    assert(w.take(wide.len() as int) =~= wide);
    lemma_ends_at(narrow, 0, 0, narrow.len() as int);
    assert(narrow.take(narrow.len() as int) =~= narrow);
    let n = narrow + seq![0u8] + tail;
    lemma_ends_at(n, 0, 0, narrow.len() as int);
    assert(n.take(narrow.len() as int) =~= narrow);
}

} // verus!
