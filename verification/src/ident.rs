//! Entity identifiers: UUID well-formedness and fresh-identifier creation.
//!
//! A textual UUID is accepted in any of four shapes: simple (32 hex
//! digits), hyphenated (36 characters grouped 8-4-4-4-12), braced (a
//! hyphenated body between `{` and `}`), and URN (a hyphenated body
//! after a case-insensitive `urn:uuid:` prefix). Identifiers the library
//! assigns itself are always in the canonical hyphenated form.

use vstd::prelude::*;

verus! {

/// A hexadecimal digit, in either case.
pub open spec fn is_hex_digit(c: char) -> bool {
    ||| (48 <= c as u32 && c as u32 <= 57)  // '0'..='9'
    ||| (97 <= c as u32 && c as u32 <= 102)  // 'a'..='f'
    ||| (65 <= c as u32 && c as u32 <= 70)  // 'A'..='F'
}

/// What position `i` of a hyphenated UUID body starting at `off` in `s`
/// holds: a hyphen at the four fixed separator positions, a hex digit
/// elsewhere.
pub open spec fn uuid_char_at(s: Seq<char>, off: int, i: int) -> bool {
    if i == 8 || i == 13 || i == 18 || i == 23 {
        s[off + i] == '-'
    } else {
        is_hex_digit(s[off + i])
    }
}

/// A hyphenated UUID body occupying positions `off..off + 36` of `s`.
pub open spec fn hyphenated_uuid_at(s: Seq<char>, off: int) -> bool {
    forall|i: int| 0 <= i < 36 ==> uuid_char_at(s, off, i)
}

/// The canonical hyphenated form: 36 characters, grouped 8-4-4-4-12.
pub open spec fn is_hyphenated_uuid(s: Seq<char>) -> bool {
    s.len() == 36 && hyphenated_uuid_at(s, 0)
}

/// The simple form: 32 hex digits, no separators.
pub open spec fn is_simple_uuid(s: Seq<char>) -> bool {
    s.len() == 32 && (forall|i: int| 0 <= i < 32 ==> is_hex_digit(s[i]))
}

/// The braced form: a hyphenated body between `{` and `}`.
pub open spec fn is_braced_uuid(s: Seq<char>) -> bool {
    s.len() == 38 && s[0] == '{' && s[37] == '}' && hyphenated_uuid_at(s, 1)
}

/// The nine characters of a `urn:uuid:` prefix, letters in either case.
pub open spec fn is_urn_prefix(s: Seq<char>) -> bool {
    &&& (s[0] == 'u' || s[0] == 'U')
    &&& (s[1] == 'r' || s[1] == 'R')
    &&& (s[2] == 'n' || s[2] == 'N')
    &&& s[3] == ':'
    &&& (s[4] == 'u' || s[4] == 'U')
    &&& (s[5] == 'u' || s[5] == 'U')
    &&& (s[6] == 'i' || s[6] == 'I')
    &&& (s[7] == 'd' || s[7] == 'D')
    &&& s[8] == ':'
}

/// The URN form: a hyphenated body after a `urn:uuid:` prefix.
pub open spec fn is_urn_uuid(s: Seq<char>) -> bool {
    s.len() == 45 && is_urn_prefix(s) && hyphenated_uuid_at(s, 9)
}

/// A well-formed textual UUID, in any of the four accepted shapes.
pub open spec fn is_valid_uuid(s: Seq<char>) -> bool {
    ||| is_simple_uuid(s)
    ||| is_hyphenated_uuid(s)
    ||| is_braced_uuid(s)
    ||| is_urn_uuid(s)
}

/// Checks one character for a hex digit.
fn is_hex_char(c: char) -> (r: bool)
    ensures
        r == is_hex_digit(c),
{
    let v = c as u32;
    (48 <= v && v <= 57) || (97 <= v && v <= 102) || (65 <= v && v <= 70)
}

/// Checks one character of a hyphenated UUID body.
fn check_uuid_char(c: char, i: usize) -> (r: bool)
    requires
        i < 36,
    ensures
        r == ({
            if i == 8 || i == 13 || i == 18 || i == 23 {
                c == '-'
            } else {
                is_hex_digit(c)
            }
        }),
{
    if i == 8 || i == 13 || i == 18 || i == 23 {
        c == '-'
    } else {
        is_hex_char(c)
    }
}

/// Checks a hyphenated UUID body at positions `off..off + 36`.
fn check_hyphenated_at(s: &str, off: usize) -> (r: bool)
    requires
        off + 36 <= s@.len(),
        off + 36 <= usize::MAX,
    ensures
        r == hyphenated_uuid_at(s@, off as int),
{
    let mut i: usize = 0;
    while i < 36
        invariant
            0 <= i <= 36,
            off + 36 <= s@.len(),
            off + 36 <= usize::MAX,
            forall|j: int| 0 <= j < i ==> uuid_char_at(s@, off as int, j),
        decreases 36 - i,
    {
        let c = s.get_char(off + i);
        if !check_uuid_char(c, i) {
            assert(!uuid_char_at(s@, off as int, i as int));
            return false;
        }
        i = i + 1;
    }
    true
}

/// Checks a simple UUID: 32 hex digits.
fn check_simple(s: &str) -> (r: bool)
    requires
        s@.len() == 32,
    ensures
        r == is_simple_uuid(s@),
{
    let mut i: usize = 0;
    while i < 32
        invariant
            0 <= i <= 32,
            s@.len() == 32,
            forall|j: int| 0 <= j < i ==> is_hex_digit(s@[j]),
        decreases 32 - i,
    {
        let c = s.get_char(i);
        if !is_hex_char(c) {
            return false;
        }
        i = i + 1;
    }
    true
}

/// Checks a case-insensitive `urn:uuid:` prefix.
fn check_urn_prefix(s: &str) -> (r: bool)
    requires
        s@.len() >= 9,
    ensures
        r == is_urn_prefix(s@),
{
    let c0 = s.get_char(0);
    let c1 = s.get_char(1);
    let c2 = s.get_char(2);
    let c3 = s.get_char(3);
    let c4 = s.get_char(4);
    let c5 = s.get_char(5);
    let c6 = s.get_char(6);
    let c7 = s.get_char(7);
    let c8 = s.get_char(8);
    (c0 == 'u' || c0 == 'U') && (c1 == 'r' || c1 == 'R') && (c2 == 'n' || c2 == 'N') && c3 == ':'
        && (c4 == 'u' || c4 == 'U') && (c5 == 'u' || c5 == 'U') && (c6 == 'i' || c6 == 'I') && (c7
        == 'd' || c7 == 'D') && c8 == ':'
}

/// Whether `s` is a well-formed textual UUID in any accepted shape.
pub fn is_uuid_str(s: &str) -> (r: bool)
    ensures
        r == is_valid_uuid(s@),
{
    let n = s.unicode_len();
    if n == 32 {
        check_simple(s)
    } else if n == 36 {
        check_hyphenated_at(s, 0)
    } else if n == 38 {
        if s.get_char(0) != '{' || s.get_char(37) != '}' {
            return false;
        }
        check_hyphenated_at(s, 1)
    } else if n == 45 {
        if !check_urn_prefix(s) {
            return false;
        }
        check_hyphenated_at(s, 9)
    } else {
        false
    }
}

/// Relies on `uuid::Uuid::new_v4` and the hyphenated `Display` form of
/// `uuid::Uuid`: the result is a freshly drawn random UUID rendered as
/// 36 characters in the canonical 8-4-4-4-12 layout. The identifier is
/// random, so nothing beyond its shape is claimed.
#[verifier::external_body]
pub(crate) fn fresh_uuid() -> (r: String)
    ensures
        is_hyphenated_uuid(r@),
{
    uuid::Uuid::new_v4().to_string()
}

} // verus!
