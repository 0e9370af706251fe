//! Text the library reads and builds: numbers, trimmed names and joined
//! addresses.

use vstd::prelude::*;
use vstd::string::*;

verus! {

/// The character of a decimal digit.
pub open spec fn digit(d: int) -> char {
    if d == 0 {
        '0'
    } else if d == 1 {
        '1'
    } else if d == 2 {
        '2'
    } else if d == 3 {
        '3'
    } else if d == 4 {
        '4'
    } else if d == 5 {
        '5'
    } else if d == 6 {
        '6'
    } else if d == 7 {
        '7'
    } else if d == 8 {
        '8'
    } else {
        '9'
    }
}

/// A number in decimal, without leading zeros.
pub open spec fn decimal(n: nat) -> Seq<char>
    decreases n,
{
    if n < 10 {
        seq![digit(n as int)]
    } else {
        decimal(n / 10).push(digit((n % 10) as int))
    }
}

fn append_digit(text: &mut String, d: u128)
    requires
        d < 10,
    ensures
        final(text)@ == old(text)@.push(digit(d as int)),
{
    proof {
        reveal_strlit("0");
        reveal_strlit("1");
        reveal_strlit("2");
        reveal_strlit("3");
        reveal_strlit("4");
        reveal_strlit("5");
        reveal_strlit("6");
        reveal_strlit("7");
        reveal_strlit("8");
        reveal_strlit("9");
    }
    let s = if d == 0 {
        "0"
    } else if d == 1 {
        "1"
    } else if d == 2 {
        "2"
    } else if d == 3 {
        "3"
    } else if d == 4 {
        "4"
    } else if d == 5 {
        "5"
    } else if d == 6 {
        "6"
    } else if d == 7 {
        "7"
    } else if d == 8 {
        "8"
    } else {
        "9"
    };
    assert(s@ =~= seq![digit(d as int)]);
    text.append(s);
    assert(text@ =~= old(text)@.push(digit(d as int)));
}

/// Append a number in decimal.
pub fn append_decimal(text: &mut String, n: u128)
    ensures
        final(text)@ == old(text)@ + decimal(n as nat),
    decreases n,
{
    if n >= 10 {
        append_decimal(text, n / 10);
    }
    append_digit(text, n % 10);
    assert(text@ =~= old(text)@ + decimal(n as nat));
}

/// A number with its sign.
pub open spec fn signed(n: int) -> Seq<char> {
    if n < 0 {
        seq!['-'] + decimal((-n) as nat)
    } else {
        decimal(n as nat)
    }
}

/// Append a number with its sign.
pub fn append_signed(text: &mut String, n: i32)
    ensures
        final(text)@ == old(text)@ + signed(n as int),
{
    if n < 0 {
        proof {
            reveal_strlit("-");
            assert("-"@ =~= seq!['-']);
        }
        text.append("-");
        append_decimal(text, (-(n as i64)) as u128);
        assert(text@ =~= old(text)@ + signed(n as int));
    } else {
        append_decimal(text, n as u128);
    }
}

/// The character of a hexadecimal digit.
pub open spec fn hex_digit(d: int) -> char {
    if d < 10 {
        digit(d)
    } else if d == 10 {
        'a'
    } else if d == 11 {
        'b'
    } else if d == 12 {
        'c'
    } else if d == 13 {
        'd'
    } else if d == 14 {
        'e'
    } else {
        'f'
    }
}

/// A number in hexadecimal, without a prefix or leading zeros.
pub open spec fn hexadecimal(n: nat) -> Seq<char>
    decreases n,
{
    if n < 16 {
        seq![hex_digit(n as int)]
    } else {
        hexadecimal(n / 16).push(hex_digit((n % 16) as int))
    }
}

fn append_hex_digits(text: &mut String, n: u32)
    ensures
        final(text)@ == old(text)@ + hexadecimal(n as nat),
    decreases n,
{
    if n >= 16 {
        append_hex_digits(text, n / 16);
    }
    let d: u32 = n % 16;
    if d < 10 {
        append_digit(text, d as u128);
    } else {
        proof {
            reveal_strlit("a");
            reveal_strlit("b");
            reveal_strlit("c");
            reveal_strlit("d");
            reveal_strlit("e");
            reveal_strlit("f");
        }
        let s = if d == 10 {
            "a"
        } else if d == 11 {
            "b"
        } else if d == 12 {
            "c"
        } else if d == 13 {
            "d"
        } else if d == 14 {
            "e"
        } else {
            "f"
        };
        assert(s@ =~= seq![hex_digit(d as int)]);
        text.append(s);
    }
    assert(text@ =~= old(text)@ + hexadecimal(n as nat));
}

/// The unsigned number with the same bits.
pub open spec fn same_bits(n: i32) -> nat {
    if n >= 0 {
        n as nat
    } else {
        (n + 0x1_0000_0000) as nat
    }
}

/// A word's bits in hexadecimal, with the prefix.
pub open spec fn hex_text(n: i32) -> Seq<char> {
    "0x"@ + hexadecimal(same_bits(n))
}

/// Append a word's bits in hexadecimal, with the prefix.
pub fn append_hex(text: &mut String, n: i32)
    ensures
        final(text)@ == old(text)@ + hex_text(n),
        final(text)@ == old(text)@ + "0x"@ + hexadecimal(same_bits(n)),
{
    let bits: u32 = if n >= 0 {
        n as u32
    } else {
        (n as i64 + 0x1_0000_0000) as u32
    };
    text.append("0x");
    append_hex_digits(text, bits);
    assert(text@ =~= old(text)@ + hex_text(n));
}

/// Yes or no, in words.
pub open spec fn truth(b: bool) -> Seq<char> {
    if b {
        "true"@
    } else {
        "false"@
    }
}

pub fn append_truth(text: &mut String, b: bool)
    ensures
        final(text)@ == old(text)@ + truth(b),
{
    if b {
        text.append("true");
    } else {
        text.append("false");
    }
}

/// A decimal digit.
pub open spec fn is_digit(c: char) -> bool {
    '0' <= c <= '9'
}

/// The number a run of digits spells.
pub open spec fn spelled(digits: Seq<char>) -> nat
    decreases digits.len(),
{
    if digits.len() == 0 {
        0
    } else {
        spelled(digits.drop_last()) * 10 + (digits.last() as nat - '0' as nat) as nat
    }
}

/// The text is a run of digits, and not empty.
pub open spec fn is_number(text: Seq<char>) -> bool {
    text.len() > 0 && forall|i: int| 0 <= i < text.len() ==> is_digit(#[trigger] text[i])
}

/// The sign in front of a number, if any.
pub open spec fn has_sign(text: Seq<char>) -> bool {
    text.len() > 0 && (text[0] == '-' || text[0] == '+')
}

/// A number with an optional sign in front, where the text is one that fits
/// the word.
pub open spec fn number_in(text: Seq<char>) -> Option<int> {
    let digits = if has_sign(text) {
        text.skip(1)
    } else {
        text
    };
    if !is_number(digits) {
        None
    } else {
        let n = if has_sign(text) && text[0] == '-' {
            -(spelled(digits) as int)
        } else {
            spelled(digits) as int
        };
        if i32::MIN <= n <= i32::MAX {
            Some(n)
        } else {
            None
        }
    }
}

/// The number that the digits from `start` on spell: None where they are no
/// number, and nothing in it where the number is past `limit`.
fn digits_from(text: &str, start: usize, limit: u64) -> (r: Option<Option<u64>>)
    requires
        start <= text@.len(),
        limit <= 0xFFFF_FFFF,
    ensures
        ({
            let digits = text@.skip(start as int);
            match r {
                None => !is_number(digits),
                Some(None) => is_number(digits) && spelled(digits) > limit,
                Some(Some(n)) => is_number(digits) && spelled(digits) == n && n <= limit,
            }
        }),
{
    let len: usize = text.unicode_len();
    let ghost digits = text@.skip(start as int);
    if start == len {
        return None;
    }
    let mut value: u64 = 0;
    let mut fits: bool = true;
    let mut i: usize = start;
    while i < len
        invariant
            len == text@.len(),
            start <= i <= len,
            limit <= 0xFFFF_FFFF,
            digits == text@.skip(start as int),
            forall|j: int| 0 <= j < i - start ==> is_digit(#[trigger] digits[j]),
            fits ==> value == spelled(digits.take(i - start)) && value <= limit,
            !fits ==> spelled(digits.take(i - start)) > limit,
        decreases len - i,
    {
        let c: char = text.get_char(i);
        let ghost at = i - start;
        assert(digits[at] == c);
        if c < '0' || c > '9' {
            assert(!is_digit(digits[at]));
            return None;
        }
        assert(digits.take(at + 1).drop_last() =~= digits.take(at));
        assert(digits.take(at + 1).last() == c);
        if fits {
            value = value * 10 + (c as u32 - '0' as u32) as u64;
            if value > limit {
                fits = false;
            }
        }
        i = i + 1;
    }
    assert(digits.take(len - start) =~= digits);
    if fits {
        Some(Some(value))
    } else {
        Some(None)
    }
}

/// Read a number with an optional sign.
pub fn parse_number(text: &str) -> (r: Option<i32>)
    ensures
        match r {
            Some(n) => number_in(text@) == Some(n as int),
            None => number_in(text@) is None,
        },
{
    let len: usize = text.unicode_len();
    if len == 0 {
        return None;
    }
    let first: char = text.get_char(0);
    let negative: bool = first == '-';
    let start: usize = if negative || first == '+' {
        1
    } else {
        0
    };
    assert(text@.skip(0) =~= text@);
    let value: u64 = match digits_from(text, start, 0x8000_0000) {
        Some(Some(value)) => value,
        _ => return None,
    };
    if negative {
        Some((-(value as i64)) as i32)
    } else if value <= i32::MAX as u64 {
        Some(value as i32)
    } else {
        None
    }
}

/// A count with an optional plus in front, where the text is one that fits
/// the word.
pub open spec fn count_in(text: Seq<char>) -> Option<nat> {
    let digits = if text.len() > 0 && text[0] == '+' {
        text.skip(1)
    } else {
        text
    };
    if is_number(digits) && spelled(digits) <= u32::MAX {
        Some(spelled(digits))
    } else {
        None
    }
}

/// Read a count with an optional plus.
pub fn parse_count(text: &str) -> (r: Option<u32>)
    ensures
        match r {
            Some(n) => count_in(text@) == Some(n as nat),
            None => count_in(text@) is None,
        },
{
    let len: usize = text.unicode_len();
    if len == 0 {
        return None;
    }
    let start: usize = if text.get_char(0) == '+' {
        1
    } else {
        0
    };
    assert(text@.skip(0) =~= text@);
    match digits_from(text, start, 0xFFFF_FFFF) {
        Some(Some(value)) => Some(value as u32),
        _ => None,
    }
}

proof fn lemma_decimal_is_a_number(n: nat)
    ensures
        is_number(decimal(n)),
        spelled(decimal(n)) == n,
    decreases n,
{
    if n < 10 {
        let d = decimal(n);
        assert(d.drop_last() =~= Seq::empty());
        reveal_with_fuel(spelled, 2);
    } else {
        lemma_decimal_is_a_number(n / 10);
        assert(decimal(n).drop_last() =~= decimal(n / 10));
        assert forall|i: int| 0 <= i < decimal(n).len() implies is_digit(#[trigger] decimal(n)[i]) by {
            if i < decimal(n / 10).len() {
                assert(decimal(n)[i] == decimal(n / 10)[i]);
            }
        }
    }
}

/// A number that is written out reads back as itself.
pub proof fn law_a_number_reads_back(n: i32)
    ensures
        number_in(signed(n as int)) == Some(n as int),
{
    if n < 0 {
        lemma_decimal_is_a_number((-n) as nat);
        assert(signed(n as int).skip(1) =~= decimal((-n) as nat));
    } else {
        lemma_decimal_is_a_number(n as nat);
        assert(is_digit(decimal(n as nat)[0]));
    }
}

/// A written number holds digits, and a sign at most in front.
pub proof fn lemma_signed_chars(n: int, i: int)
    requires
        0 <= i < signed(n).len(),
    ensures
        is_digit(signed(n)[i]) || signed(n)[i] == '-',
{
    if n < 0 {
        lemma_decimal_is_a_number((-n) as nat);
        if i > 0 {
            assert(signed(n)[i] == decimal((-n) as nat)[i - 1]);
        }
    } else {
        lemma_decimal_is_a_number(n as nat);
    }
}

/// What `char::is_whitespace` says of a character.
pub uninterp spec fn is_blank(c: char) -> bool;

/// Calls `char::is_whitespace`. It claims that the result is a function of the
/// character. Which characters are blanks is left unsaid.
#[verifier::external_body]
fn blank(c: char) -> (r: bool)
    ensures
        r == is_blank(c),
{
    c.is_whitespace()
}

/// A text without the blanks around it.
pub open spec fn trimmed_text(text: Seq<char>) -> Seq<char>
    decreases text.len(),
{
    if text.len() == 0 {
        text
    } else if is_blank(text[0]) {
        trimmed_text(text.skip(1))
    } else if is_blank(text.last()) {
        trimmed_text(text.drop_last())
    } else {
        text
    }
}

/// Cut the blanks off both ends of a text.
pub fn trimmed(text: &str) -> (part: &str)
    ensures
        part@ == trimmed_text(text@),
{
    let len: usize = text.unicode_len();
    let mut from: usize = 0;
    assert(text@.subrange(0, len as int) =~= text@);
    while from < len && blank(text.get_char(from))
        invariant
            from <= len,
            len == text@.len(),
            trimmed_text(text@) == trimmed_text(text@.subrange(from as int, len as int)),
        decreases len - from,
    {
        assert(text@.subrange(from as int, len as int).skip(1) =~= text@.subrange(
            from + 1,
            len as int,
        ));
        from = from + 1;
    }
    let mut to: usize = len;
    while to > from && blank(text.get_char(to - 1))
        invariant
            from <= to <= len,
            len == text@.len(),
            from < len ==> !is_blank(text@[from as int]),
            trimmed_text(text@) == trimmed_text(text@.subrange(from as int, to as int)),
        decreases to,
    {
        assert(text@.subrange(from as int, to as int).drop_last() =~= text@.subrange(
            from as int,
            to - 1,
        ));
        to = to - 1;
    }
    text.substring_char(from, to)
}

/// The text from `i` to `j` is all of it but blanks around it.
pub open spec fn is_core(text: Seq<char>, i: int, j: int) -> bool {
    &&& 0 <= i <= j <= text.len()
    &&& forall|k: int| 0 <= k < i || j <= k < text.len() ==> is_blank(#[trigger] text[k])
    &&& i < j ==> !is_blank(text[i]) && !is_blank(text[j - 1])
}

proof fn lemma_trimmed(text: Seq<char>) -> (span: (int, int))
    ensures
        is_core(text, span.0, span.1),
        trimmed_text(text) == text.subrange(span.0, span.1),
    decreases text.len(),
{
    if text.len() == 0 {
        assert(text.subrange(0, 0) =~= text);
        (0, 0)
    } else if is_blank(text[0]) {
        let rest = text.skip(1);
        let span = lemma_trimmed(rest);
        assert(text.subrange(span.0 + 1, span.1 + 1) =~= rest.subrange(span.0, span.1));
        assert forall|i: int|
            0 <= i < span.0 + 1 || span.1 + 1 <= i < text.len() implies is_blank(
            #[trigger] text[i],
        ) by {
            if i > 0 {
                assert(rest[i - 1] == text[i]);
            }
        }
        (span.0 + 1, span.1 + 1)
    } else if is_blank(text.last()) {
        let rest = text.drop_last();
        let span = lemma_trimmed(rest);
        assert(text.subrange(span.0, span.1) =~= rest.subrange(span.0, span.1));
        assert forall|i: int|
            0 <= i < span.0 || span.1 <= i < text.len() implies is_blank(#[trigger] text[i]) by {
            if i < rest.len() {
                assert(rest[i] == text[i]);
            }
        }
        span
    } else {
        assert(text.subrange(0, text.len() as int) =~= text);
        (0, text.len() as int)
    }
}

/// What is left of a text has no blank at either end, and nothing but blanks
/// was cut off. To trim it again leaves it alone.
pub proof fn law_only_blanks_are_cut_off(text: Seq<char>)
    ensures
        exists|i: int, j: int| #[trigger]
            is_core(text, i, j) && trimmed_text(text) == text.subrange(i, j),
        trimmed_text(trimmed_text(text)) == trimmed_text(text),
{
    let (i, j) = lemma_trimmed(text);
    let part = text.subrange(i, j);
    if i < j {
        assert(part[0] == text[i] && part.last() == text[j - 1]);
    }
}

/// The text holds `c`.
pub fn has_char(text: &str, c: char) -> (r: bool)
    ensures
        r == text@.contains(c),
{
    let n: usize = text.unicode_len();
    let mut i: usize = 0;
    while i < n
        invariant
            n == text@.len(),
            i <= n,
            forall|j: int| 0 <= j < i ==> text@[j] != c,
        decreases n - i,
    {
        if text.get_char(i) == c {
            assert(text@[i as int] == c);
            return true;
        }
        i = i + 1;
    }
    false
}

/// A host that needs brackets before its port: a bare IPv6 literal.
pub open spec fn needs_brackets(host: Seq<char>) -> bool {
    host.contains(':') && !(host.len() > 0 && host[0] == '[')
}

/// A host and a port, as a socket address is written.
pub open spec fn host_port(host: Seq<char>, port: u16) -> Seq<char> {
    if needs_brackets(host) {
        seq!['['] + host + seq![']', ':'] + decimal(port as nat)
    } else {
        host + seq![':'] + decimal(port as nat)
    }
}

/// Join `host` and `port`, bracketing a bare IPv6 literal: without brackets
/// the joined text names no address. Everything else passes through.
pub fn join_host_port(host: &str, port: u16) -> (joined: String)
    ensures
        joined@ == host_port(host@, port),
{
    proof {
        reveal_strlit("[");
        reveal_strlit("]:");
        reveal_strlit(":");
    }
    let bracketed = host.unicode_len() > 0 && host.get_char(0) == '[';
    if has_char(host, ':') && !bracketed {
        let mut joined: String = String::from_str("[");
        joined.append(host);
        joined.append("]:");
        assert("["@ =~= seq!['[']);
        assert("]:"@ =~= seq![']', ':']);
        append_decimal(&mut joined, port as u128);
        joined
    } else {
        let mut joined: String = String::from_str(host);
        joined.append(":");
        assert(":"@ =~= seq![':']);
        append_decimal(&mut joined, port as u128);
        joined
    }
}

/// A joined address holds its port behind its last colon: what follows that
/// colon is the port in decimal, whatever the host is.
pub proof fn law_the_port_ends_the_address(host: Seq<char>, port: u16)
    ensures
        ({
            let joined = host_port(host, port);
            let tail = decimal(port as nat);
            &&& joined.len() > tail.len()
            &&& joined.subrange(joined.len() - tail.len(), joined.len() as int) == tail
            &&& joined[joined.len() - tail.len() - 1] == ':'
        }),
{
    let joined = host_port(host, port);
    let tail = decimal(port as nat);
    assert(joined.subrange(joined.len() - tail.len(), joined.len() as int) =~= tail);
}

/// Digits are the characters from nought on, in order; the hexadecimal ones go
/// on at `a`.
pub proof fn law_digits_are_in_order(d: int)
    ensures
        0 <= d < 10 ==> digit(d) as int == 48 + d && is_digit(digit(d)),
        0 <= d < 10 ==> hex_digit(d) as int == 48 + d,
        10 <= d < 16 ==> hex_digit(d) as int == 87 + d,
        is_digit('0') && is_digit('9') && !is_digit('/') && !is_digit(':'),
{
}

/// A number is written digit by digit, most significant first: ten times it
/// and a digit is its text with that digit behind it, and nothing under ten
/// has two. In base sixteen it is the same.
pub proof fn law_a_number_is_written_in_its_base(n: nat, d: nat)
    ensures
        d < 10 ==> decimal(d).len() == 1 && decimal(d)[0] as int == 48 + d,
        d < 10 && n > 0 ==> decimal((10 * n + d) as nat) == decimal(n).push(digit(d as int)),
        d < 16 ==> hexadecimal(d).len() == 1 && hexadecimal(d)[0] == hex_digit(d as int),
        d < 16 && n > 0 ==> hexadecimal((16 * n + d) as nat) == hexadecimal(n).push(
            hex_digit(d as int),
        ),
{
    if d < 10 && n > 0 {
        assert((10 * n + d) / 10 == n && (10 * n + d) % 10 == d as int) by (nonlinear_arith)
            requires
                d < 10,
        ;
    }
    if d < 16 && n > 0 {
        assert((16 * n + d) / 16 == n && (16 * n + d) % 16 == d as int) by (nonlinear_arith)
            requires
                d < 16,
        ;
    }
}

/// A word is written as its bits, with the prefix: a negative one as the
/// unsigned number it wraps to.
pub proof fn law_a_word_is_written_as_its_bits(n: i32)
    ensures
        n >= 0 ==> same_bits(n) == n,
        n < 0 ==> same_bits(n) == n + 0x1_0000_0000,
        hex_text(n).len() == 2 + hexadecimal(same_bits(n)).len(),
        hex_text(n)[0] == '0' && hex_text(n)[1] == 'x',
        hex_text(n).skip(2) == hexadecimal(same_bits(n)),
{
    reveal_strlit("0x");
    assert(hex_text(n).skip(2) =~= hexadecimal(same_bits(n)));
}

/// A negative number has a minus in front of it, any other nothing.
pub proof fn law_a_sign_stands_in_front(n: int)
    ensures
        n >= 0 ==> signed(n) == decimal(n as nat),
        n < 0 ==> signed(n)[0] == '-' && signed(n).skip(1) == decimal((-n) as nat),
{
    if n < 0 {
        assert(signed(n).skip(1) =~= decimal((-n) as nat));
    }
}

/// A count and a number are read as they are written, with a plus in front or
/// without, a number with a minus too, as far as the word goes.
pub proof fn law_counts_and_numbers_are_read(n: nat)
    ensures
        n <= 0xffff_ffff ==> count_in(decimal(n)) == Some(n),
        n <= 0xffff_ffff ==> count_in(seq!['+'] + decimal(n)) == Some(n),
        n > 0xffff_ffff ==> count_in(decimal(n)) is None,
        n <= 0x7fff_ffff ==> number_in(decimal(n)) == Some(n as int),
        n <= 0x7fff_ffff ==> number_in(seq!['+'] + decimal(n)) == Some(n as int),
        n > 0x7fff_ffff ==> number_in(decimal(n)) is None,
        n <= 0x8000_0000 ==> number_in(seq!['-'] + decimal(n)) == Some(-(n as int)),
        n > 0x8000_0000 ==> number_in(seq!['-'] + decimal(n)) is None,
{
    lemma_decimal_is_a_number(n);
    assert(is_digit(decimal(n)[0]));
    let plus = seq!['+'] + decimal(n);
    let minus = seq!['-'] + decimal(n);
    assert(plus.skip(1) =~= decimal(n));
    assert(minus.skip(1) =~= decimal(n));
}

/// A text with anything but digits behind its sign is neither a number nor a
/// count, and neither is one with no digit.
pub proof fn law_other_texts_are_no_numbers(text: Seq<char>, i: int)
    ensures
        text.len() == 0 ==> number_in(text) is None && count_in(text) is None,
        text == seq!['-'] || text == seq!['+'] ==> number_in(text) is None && count_in(text) is None,
        0 < i < text.len() && !is_digit(text[i]) ==> number_in(text) is None && count_in(text)
            is None,
        text.len() > 0 && !is_digit(text[0]) && text[0] != '+' ==> count_in(text) is None,
        text.len() > 0 && !is_digit(text[0]) && text[0] != '+' && text[0] != '-' ==> number_in(text)
            is None,
{
    if 0 < i < text.len() && !is_digit(text[i]) {
        assert(text.skip(1)[i - 1] == text[i]);
    }
}

/// Yes and no are words.
pub proof fn law_truth_is_a_word(b: bool)
    ensures
        b ==> truth(b) == "true"@,
        !b ==> truth(b) == "false"@,
{
}

/// A host with a colon in it and no bracket in front is put in brackets; any
/// other stands as it is. The port follows a colon.
pub proof fn law_a_bare_literal_is_bracketed(host: Seq<char>, port: u16, i: int)
    ensures
        ({
            let joined = host_port(host, port);
            let bare = host.contains(':') && (host.len() == 0 || host[0] != '[');
            let tail = decimal(port as nat);
            let n = host.len() as int;
            &&& bare ==> joined.len() == n + 3 + tail.len() && joined[0] == '[' && joined[n + 1]
                == ']' && joined[n + 2] == ':' && (0 <= i < n ==> joined[i + 1] == host[i])
            &&& !bare ==> joined.len() == n + 1 + tail.len() && joined[n] == ':' && (0 <= i < n
                ==> joined[i] == host[i])
        }),
{
}

} // verus!
