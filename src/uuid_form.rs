//! The textual forms of a UUID, and the calls into the `uuid` crate that
//! parse, inspect and generate them.

use vstd::arithmetic::power::pow;
use vstd::prelude::*;

verus! {

/// An ASCII hexadecimal digit, in either case.
pub open spec fn is_hex_digit(c: char) -> bool {
    ('0' <= c && c <= '9') || ('a' <= c && c <= 'f') || ('A' <= c && c <= 'F')
}

/// The value of a hexadecimal digit.
pub open spec fn hex_digit_value(c: char) -> int {
    if '0' <= c && c <= '9' {
        c as int - '0' as int
    } else if 'a' <= c && c <= 'f' {
        c as int - 'a' as int + 10
    } else {
        c as int - 'A' as int + 10
    }
}

pub open spec fn is_ascii_upper(c: char) -> bool {
    'A' <= c && c <= 'Z'
}

/// `a` and `b` are equal when ASCII letters are compared without case.
pub open spec fn ascii_eq_ignore_case(a: char, b: char) -> bool {
    ||| a == b
    ||| is_ascii_upper(a) && a as int + 32 == b as int
    ||| is_ascii_upper(b) && b as int + 32 == a as int
}

/// The positions of the four hyphens in the hyphenated form.
pub open spec fn is_hyphen_position(j: int) -> bool {
    j == 8 || j == 13 || j == 18 || j == 23
}

/// Where the `i`-th of the 32 hex digits stands in the hyphenated form.
pub open spec fn digit_position(i: int) -> int {
    if i < 8 {
        i
    } else if i < 12 {
        i + 1
    } else if i < 16 {
        i + 2
    } else if i < 20 {
        i + 3
    } else {
        i + 4
    }
}

/// 32 hex digits split into groups of 8-4-4-4-12 by hyphens.
pub open spec fn is_hyphenated(h: Seq<char>) -> bool {
    &&& h.len() == 36
    &&& forall|j: int|
        0 <= j < 36 ==> if is_hyphen_position(j) {
            #[trigger] h[j] == '-'
        } else {
            is_hex_digit(h[j])
        }
}

pub open spec fn hyphenated_digits(h: Seq<char>) -> Seq<char> {
    Seq::new(32, |i: int| h[digit_position(i)])
}

pub open spec fn is_simple(s: Seq<char>) -> bool {
    s.len() == 32 && forall|i: int| 0 <= i < 32 ==> is_hex_digit(#[trigger] s[i])
}

pub open spec fn urn_prefix() -> Seq<char> {
    seq!['u', 'r', 'n', ':', 'u', 'u', 'i', 'd', ':']
}

pub open spec fn is_urn_prefix(p: Seq<char>) -> bool {
    p.len() == 9 && forall|k: int| 0 <= k < 9 ==> ascii_eq_ignore_case(#[trigger] p[k], urn_prefix()[k])
}

pub open spec fn is_braced(s: Seq<char>) -> bool {
    s.len() == 38 && s[0] == '{' && s[37] == '}' && is_hyphenated(s.subrange(1, 37))
}

pub open spec fn is_urn(s: Seq<char>) -> bool {
    s.len() == 45 && is_urn_prefix(s.subrange(0, 9)) && is_hyphenated(s.subrange(9, 45))
}

/// Text that the `uuid` crate parses as a UUID: 32 hex digits, the
/// hyphenated form, the hyphenated form in braces, or the hyphenated form
/// after a `urn:uuid:` prefix (whose letters may be in either case).
pub open spec fn is_uuid_text(s: Seq<char>) -> bool {
    is_simple(s) || is_hyphenated(s) || is_braced(s) || is_urn(s)
}

/// The 32 hex digits of a UUID text, most significant first.
pub open spec fn uuid_digits(s: Seq<char>) -> Seq<char> {
    if s.len() == 32 {
        s
    } else if s.len() == 36 {
        hyphenated_digits(s)
    } else if s.len() == 38 {
        hyphenated_digits(s.subrange(1, 37))
    } else {
        hyphenated_digits(s.subrange(9, 45))
    }
}

/// The version field of a UUID text: its 13th hex digit.
pub open spec fn text_version(s: Seq<char>) -> int {
    hex_digit_value(uuid_digits(s)[12])
}

/// The `i`-th 4-bit group of a 128-bit value, most significant first.
pub open spec fn nibble(v: u128, i: int) -> int {
    (v as int / pow(16, (31 - i) as nat)) % 16
}

/// Relies on `uuid::Uuid::try_parse`: it accepts exactly the four textual
/// forms above, and the parsed value has the text's hex digits as its
/// nibbles. The value is handed on as `Uuid::as_u128`, big-endian.
#[verifier::external_body]
pub(crate) fn parse_uuid(s: &str) -> (r: Result<u128, uuid::Error>)
    ensures
        r is Ok <==> is_uuid_text(s@),
        r is Ok ==> forall|i: int|
            0 <= i < 32 ==> #[trigger] nibble(r->Ok_0, i) == hex_digit_value(uuid_digits(s@)[i]),
{
    match uuid::Uuid::try_parse(s) {
        Ok(u) => Ok(u.as_u128()),
        Err(e) => Err(e),
    }
}

/// Relies on `uuid::Uuid::get_version_num`: the high nibble of byte 6,
/// which is the 13th nibble of the big-endian value.
#[verifier::external_body]
pub(crate) fn version_number(v: u128) -> (r: usize)
    ensures
        r == nibble(v, 12),
{
    uuid::Uuid::from_u128(v).get_version_num()
}

/// Relies on `uuid::Uuid::now_v7` and its `Display`: whatever the clock and
/// the random source give, the text is the lower-case hyphenated form with
/// the version digit 7. (The crate panics only where the system clock reads
/// before 1970 or the system's random source fails.)
#[verifier::external_body]
pub(crate) fn new_v7_text() -> (r: String)
    ensures
        is_hyphenated(r@),
        r@[14] == '7',
        forall|i: int| 0 <= i < r@.len() ==> !is_ascii_upper(#[trigger] r@[i]),
{
    uuid::Uuid::now_v7().to_string()
}

#[verifier::external_type_specification]
#[verifier::external_body]
pub struct ExUuidError(uuid::Error);

} // verus!
