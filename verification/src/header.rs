//! The `Content-Length` header of a language-server frame: how its value is
//! read from a header line and how it is written.

use crate::bytes::{has_prefix_ignoring_case, starts_with_ignoring_case};
use vstd::prelude::*;
use vstd::slice::slice_subrange;

verus! {

/// The header's name with its colon, `Content-Length:`.
pub open spec fn name() -> Seq<u8> {
    seq![67u8, 111u8, 110u8, 116u8, 101u8, 110u8, 116u8, 45u8, 76u8, 101u8, 110u8, 103u8, 116u8, 104u8, 58u8]
}

pub open spec fn is_digit(b: u8) -> bool {
    48 <= b <= 57
}

pub open spec fn digit_value(b: u8) -> nat {
    if b >= 48 {
        (b - 48) as nat
    } else {
        0
    }
}

pub open spec fn all_digits(s: Seq<u8>) -> bool {
    forall|i: int| 0 <= i < s.len() ==> is_digit(#[trigger] s[i])
}

/// The number that a run of decimal digits denotes.
pub open spec fn digits_value(s: Seq<u8>) -> nat
    decreases s.len(),
{
    if s.len() == 0 {
        0
    } else {
        digits_value(s.drop_last()) * 10 + digit_value(s.last())
    }
}

/// The decimal digits of `n`, without leading zeros.
pub open spec fn decimal(n: nat) -> Seq<u8>
    decreases n,
{
    if n < 10 {
        seq![(48 + n) as u8]
    } else {
        decimal(n / 10).push((48 + n % 10) as u8)
    }
}

/// A length as it is read from a header's value: decimal digits, which a
/// single `+` may precede, denoting a number that fits the machine word.
pub open spec fn parse_length(s: Seq<u8>) -> Option<usize> {
    let digits = if s.len() > 0 && s[0] == 43 {
        s.skip(1)
    } else {
        s
    };
    if digits.len() > 0 && all_digits(digits) && digits_value(digits) <= usize::MAX {
        Some(digits_value(digits) as usize)
    } else {
        None
    }
}

pub open spec fn is_ascii_space(b: u8) -> bool {
    9 <= b <= 13 || b == 32
}

/// U+0085 and U+00A0 in UTF-8.
pub open spec fn is_short_space(a: u8, b: u8) -> bool {
    a == 0xC2 && (b == 0x85 || b == 0xA0)
}

/// U+1680, U+2000 to U+200A, U+2028, U+2029, U+202F, U+205F and U+3000 in
/// UTF-8.
pub open spec fn is_wide_space(a: u8, b: u8, c: u8) -> bool {
    ||| a == 0xE1 && b == 0x9A && c == 0x80
    ||| a == 0xE2 && b == 0x80 && (0x80 <= c <= 0x8A || c == 0xA8 || c == 0xA9 || c == 0xAF)
    ||| a == 0xE2 && b == 0x81 && c == 0x9F
    ||| a == 0xE3 && b == 0x80 && c == 0x80
}

/// The length in bytes of the white-space character that `s` begins with, 0
/// where it begins with none.
pub open spec fn space_at_start(s: Seq<u8>) -> nat {
    if s.len() >= 1 && is_ascii_space(s[0]) {
        1
    } else if s.len() >= 2 && is_short_space(s[0], s[1]) {
        2
    } else if s.len() >= 3 && is_wide_space(s[0], s[1], s[2]) {
        3
    } else {
        0
    }
}

/// The length in bytes of the white-space character that `s` ends with, 0
/// where it ends with none.
pub open spec fn space_at_end(s: Seq<u8>) -> nat {
    let n = s.len() as int;
    if n >= 1 && is_ascii_space(s[n - 1]) {
        1
    } else if n >= 2 && is_short_space(s[n - 2], s[n - 1]) {
        2
    } else if n >= 3 && is_wide_space(s[n - 3], s[n - 2], s[n - 1]) {
        3
    } else {
        0
    }
}

pub open spec fn trim_start(s: Seq<u8>) -> Seq<u8>
    decreases s.len(),
{
    if space_at_start(s) > 0 {
        trim_start(s.skip(space_at_start(s) as int))
    } else {
        s
    }
}

pub open spec fn trim_end(s: Seq<u8>) -> Seq<u8>
    decreases s.len(),
{
    if space_at_end(s) > 0 {
        trim_end(s.take(s.len() - space_at_end(s)))
    } else {
        s
    }
}

/// `s` without the white space at its two ends.
pub open spec fn trim(s: Seq<u8>) -> Seq<u8> {
    trim_end(trim_start(s))
}

/// Whether a header line names the length: it begins with `Content-Length:`,
/// in any mix of upper and lower case.
pub open spec fn is_length_header(line: Seq<u8>) -> bool {
    has_prefix_ignoring_case(line, name())
}

/// A length header without its name, and without any repetition of the name
/// that follows at once.
pub open spec fn strip_names(line: Seq<u8>) -> Seq<u8>
    decreases line.len(),
{
    if is_length_header(line) {
        strip_names(line.skip(15))
    } else {
        line
    }
}

/// The length that a header line declares: `Some` for a length header whose
/// value, trimmed of white space, reads as a length; `None` for every other
/// line.
pub open spec fn header_length(line: Seq<u8>) -> Option<usize> {
    if is_length_header(line) {
        parse_length(trim(strip_names(line)))
    } else {
        None
    }
}

/// The header line that announces a body of `n` bytes, with its line end.
pub open spec fn header_line(n: nat) -> Seq<u8> {
    name() + seq![32u8] + decimal(n) + seq![13u8, 10u8]
}

proof fn lemma_prefix_value(s: Seq<u8>, k: int)
    requires
        0 <= k <= s.len(),
    ensures
        digits_value(s.take(k)) <= digits_value(s),
    decreases s.len() - k,
{
    if k == s.len() {
        assert(s.take(k) == s);
    } else {
        lemma_prefix_value(s, k + 1);
        assert(s.take(k + 1).drop_last() == s.take(k));
    }
}

/// The digits of a number are digits, and denote it.
pub proof fn lemma_decimal(n: nat)
    ensures
        decimal(n).len() > 0,
        all_digits(decimal(n)),
        digits_value(decimal(n)) == n,
    decreases n,
{
    if n < 10 {
        let s = decimal(n);
        assert(s.drop_last().len() == 0);
        assert(digits_value(s) == digits_value(s.drop_last()) * 10 + digit_value(s.last()));
    } else {
        lemma_decimal(n / 10);
        let s = decimal(n);
        assert(s.drop_last() == decimal(n / 10));
        assert forall|i: int| 0 <= i < s.len() implies is_digit(#[trigger] s[i]) by {
            if i < s.len() - 1 {
                assert(s[i] == decimal(n / 10)[i]);
            }
        }
    }
}

/// A header line is read back as the length that it was written for: the
/// value of `header_line(n)` is `n`. The line holds no byte above 127, and its
/// only line feed is its last byte.
pub proof fn lemma_header_line(n: nat)
    requires
        n <= usize::MAX,
    ensures
        header_length(header_line(n)) == Some(n as usize),
        header_line(n).len() == 18 + decimal(n).len(),
        header_line(n).last() == 10,
        forall|i: int| 0 <= i < header_line(n).len() - 1 ==> header_line(n)[i] != 10,
        forall|i: int| 0 <= i < header_line(n).len() ==> header_line(n)[i] < 128,
{
    lemma_decimal(n);
    let digits = decimal(n);
    let line = header_line(n);
    let value = seq![32u8] + digits + seq![13u8, 10u8];
    assert(line.skip(15) == value);
    assert(is_length_header(line)) by {
        assert forall|i: int| 0 <= i < 15 implies crate::bytes::ascii_lower(#[trigger] line[i])
            == crate::bytes::ascii_lower(name()[i]) by {
            assert(line[i] == name()[i]);
        }
    }
    assert(!is_length_header(value)) by {
        assert(value[0] == 32);
        assert(name()[0] == 67);
    }
    assert(strip_names(line) == value) by {
        assert(strip_names(line) == strip_names(line.skip(15)));
    }
    assert(is_digit(digits[0]));
    assert(is_digit(digits.last()));
    assert(trim_start(value) == digits + seq![13u8, 10u8]) by {
        let inner = digits + seq![13u8, 10u8];
        assert(space_at_start(value) == 1);
        assert(value.skip(1) == inner);
        assert(inner[0] == digits[0]);
        assert(space_at_start(inner) == 0);
        assert(trim_start(inner) == inner);
        assert(trim_start(value) == trim_start(value.skip(1)));
    }
    assert(trim_end(digits + seq![13u8, 10u8]) == digits) by {
        let a = digits + seq![13u8, 10u8];
        let b = digits + seq![13u8];
        assert(space_at_end(a) == 1);
        assert(a.take(a.len() - 1) == b);
        assert(space_at_end(b) == 1);
        assert(b.take(b.len() - 1) == digits);
        assert(space_at_end(digits) == 0);
        assert(trim_end(b) == trim_end(digits));
        assert(trim_end(a) == trim_end(b));
    }
    assert(trim(value) == digits);
    assert(digits[0] != 43);
    assert forall|i: int| 0 <= i < line.len() implies line[i] < 128 && (i < line.len() - 1
        ==> line[i] != 10) by {
        if 16 <= i < 16 + digits.len() {
            assert(line[i] == digits[i - 16]);
            assert(is_digit(digits[i - 16]));
        }
    }
}

/// The header's name with its colon, as bytes to write.
pub fn name_bytes() -> (bytes: Vec<u8>)
    ensures
        bytes@ == name(),
{
    let bytes: Vec<u8> = vec![67, 111, 110, 116, 101, 110, 116, 45, 76, 101, 110, 103, 116, 104, 58];
    bytes
}

fn leading_space(s: &[u8]) -> (width: usize)
    ensures
        width == space_at_start(s@),
{
    let n: usize = s.len();
    if n >= 1 && ((9 <= s[0] && s[0] <= 13) || s[0] == 32) {
        1
    } else if n >= 2 && s[0] == 0xC2 && (s[1] == 0x85 || s[1] == 0xA0) {
        2
    } else if n >= 3 && wide_space(s[0], s[1], s[2]) {
        3
    } else {
        0
    }
}

fn trailing_space(s: &[u8]) -> (width: usize)
    ensures
        width == space_at_end(s@),
{
    let n: usize = s.len();
    if n >= 1 && ((9 <= s[n - 1] && s[n - 1] <= 13) || s[n - 1] == 32) {
        1
    } else if n >= 2 && s[n - 2] == 0xC2 && (s[n - 1] == 0x85 || s[n - 1] == 0xA0) {
        2
    } else if n >= 3 && wide_space(s[n - 3], s[n - 2], s[n - 1]) {
        3
    } else {
        0
    }
}

fn wide_space(a: u8, b: u8, c: u8) -> (wide: bool)
    ensures
        wide == is_wide_space(a, b, c),
{
    (a == 0xE1 && b == 0x9A && c == 0x80) || (a == 0xE2 && b == 0x80 && ((0x80 <= c && c <= 0x8A)
        || c == 0xA8 || c == 0xA9 || c == 0xAF)) || (a == 0xE2 && b == 0x81 && c == 0x9F) || (a
        == 0xE3 && b == 0x80 && c == 0x80)
}

/// Removes the white space at both ends of `s`.
pub fn trimmed(s: &[u8]) -> (inner: &[u8])
    ensures
        inner@ == trim(s@),
{
    let mut rest: &[u8] = s;
    loop
        invariant
            trim_start(rest@) == trim_start(s@),
        ensures
            rest@ == trim_start(s@),
        decreases rest@.len(),
    {
        let width: usize = leading_space(rest);
        if width == 0 {
            break;
        }
        rest = slice_subrange(rest, width, rest.len());
    }
    loop
        invariant
            trim_end(rest@) == trim(s@),
        ensures
            rest@ == trim(s@),
        decreases rest@.len(),
    {
        let width: usize = trailing_space(rest);
        if width == 0 {
            break;
        }
        rest = slice_subrange(rest, 0, rest.len() - width);
    }
    rest
}

/// Reads a length from the value of a header.
pub fn read_length(s: &[u8]) -> (length: Option<usize>)
    ensures
        length == parse_length(s@),
{
    let digits: &[u8] = if s.len() > 0 && s[0] == 43 {
        slice_subrange(s, 1, s.len())
    } else {
        s
    };
    if digits.len() == 0 {
        return None;
    }
    let mut value: usize = 0;
    let mut i: usize = 0;
    while i < digits.len()
        invariant
            i <= digits@.len(),
            digits@.len() > 0,
            digits@ == if s@.len() > 0 && s@[0] == 43 {
                s@.skip(1)
            } else {
                s@
            },
            all_digits(digits@.take(i as int)),
            value == digits_value(digits@.take(i as int)),
        decreases digits@.len() - i,
    {
        let b: u8 = digits[i];
        if b < 48 || b > 57 {
            return None;
        }
        let d: usize = (b - 48) as usize;
        proof {
            assert(digits@.take(i + 1).drop_last() == digits@.take(i as int));
            lemma_prefix_value(digits@, i + 1);
        }
        if value > (usize::MAX - d) / 10 {
            return None;
        }
        value = value * 10 + d;
        i += 1;
    }
    assert(digits@.take(i as int) == digits@);
    Some(value)
}

/// Reads the length that a header line declares.
pub fn length_of_header(line: &[u8]) -> (length: Option<usize>)
    ensures
        length == header_length(line@),
{
    let name = name_bytes();
    if !starts_with_ignoring_case(line, name.as_slice()) {
        return None;
    }
    let mut rest: &[u8] = line;
    while starts_with_ignoring_case(rest, name.as_slice())
        invariant
            name@ == self::name(),
            strip_names(rest@) == strip_names(line@),
        decreases rest@.len(),
    {
        rest = slice_subrange(rest, 15, rest.len());
    }
    read_length(trimmed(rest))
}

/// Appends the decimal digits of `n` to `out`.
pub fn push_decimal(out: &mut Vec<u8>, n: usize)
    ensures
        final(out)@ == old(out)@ + decimal(n as nat),
    decreases n,
{
    if n >= 10 {
        push_decimal(out, n / 10);
    }
    out.push(48 + (n % 10) as u8);
}

} // verus!
