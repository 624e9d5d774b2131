//! Normalization of a raw header value: surrounding whitespace is trimmed and
//! the rest is lower-cased.

use crate::uuid_form::{
    ascii_eq_ignore_case, is_ascii_upper, is_braced, is_hex_digit, is_hyphen_position, is_hyphenated,
    is_simple, is_uuid_text, urn_prefix,
};
use vstd::prelude::*;

verus! {

/// The characters with the Unicode `White_Space` property.
pub open spec fn is_white_space(c: char) -> bool {
    ||| '\u{9}' <= c && c <= '\u{d}'
    ||| c == ' '
    ||| c == '\u{85}'
    ||| c == '\u{a0}'
    ||| c == '\u{1680}'
    ||| '\u{2000}' <= c && c <= '\u{200a}'
    ||| c == '\u{2028}'
    ||| c == '\u{2029}'
    ||| c == '\u{202f}'
    ||| c == '\u{205f}'
    ||| c == '\u{3000}'
}

/// `s` without its leading and trailing white space.
pub open spec fn trimmed(s: Seq<char>) -> Seq<char>
    decreases s.len(),
{
    if s.len() > 0 && is_white_space(s[0]) {
        trimmed(s.drop_first())
    } else if s.len() > 0 && is_white_space(s.last()) {
        trimmed(s.drop_last())
    } else {
        s
    }
}

pub open spec fn is_ascii_text(s: Seq<char>) -> bool {
    forall|i: int| 0 <= i < s.len() ==> (#[trigger] s[i] as int) < 128
}

pub open spec fn has_no_ascii_upper(s: Seq<char>) -> bool {
    forall|i: int| 0 <= i < s.len() ==> !is_ascii_upper(#[trigger] s[i])
}

/// `r` is `s` with each ASCII upper-case letter replaced by its lower-case
/// counterpart.
pub open spec fn is_ascii_lowering_of(r: Seq<char>, s: Seq<char>) -> bool {
    &&& r.len() == s.len()
    &&& forall|i: int|
        0 <= i < s.len() ==> if is_ascii_upper(#[trigger] s[i]) {
            r[i] as int == s[i] as int + 32
        } else {
            r[i] == s[i]
        }
}

/// What `str::to_lowercase` returns for `s`.
pub uninterp spec fn lower_of(s: Seq<char>) -> Seq<char>;

/// The normalized candidate of a raw header value.
pub open spec fn normalized(s: Seq<char>) -> Seq<char> {
    lower_of(trimmed(s))
}

/// Relies on `str::trim`: leading and trailing `White_Space` characters are
/// removed.
#[verifier::external_body]
fn trim_white_space(s: &str) -> (r: &str)
    ensures
        r@ == trimmed(s@),
{
    s.trim()
}

/// Relies on `str::to_lowercase`: the result depends on the characters alone,
/// and on ASCII text only the letters `A` to `Z` change, to `a` to `z`.
#[verifier::external_body]
fn to_lower_case(s: &str) -> (r: String)
    ensures
        r@ == lower_of(s@),
        is_ascii_text(s@) ==> is_ascii_lowering_of(r@, s@),
{
    s.to_lowercase()
}

proof fn lemma_trimmed_keeps_unpadded(s: Seq<char>)
    requires
        s.len() > 0,
        !is_white_space(s[0]),
        !is_white_space(s.last()),
    ensures
        trimmed(s) == s,
{
}

proof fn lemma_uuid_text_is_ascii(s: Seq<char>)
    requires
        is_uuid_text(s),
    ensures
        is_ascii_text(s),
        s.len() > 0,
        !is_white_space(s[0]),
        !is_white_space(s.last()),
{
    if is_simple(s) {
        assert(is_hex_digit(s[0]) && is_hex_digit(s[31]));
    } else if is_hyphenated(s) {
        assert(is_hex_digit(s[0]) && is_hex_digit(s[35]));
        assert forall|i: int| 0 <= i < s.len() implies (#[trigger] s[i] as int) < 128 by {
            assert(is_hyphen_position(i) || is_hex_digit(s[i]));
        }
    } else if is_braced(s) {
        let h = s.subrange(1, 37);
        assert forall|i: int| 0 <= i < s.len() implies (#[trigger] s[i] as int) < 128 by {
            if 1 <= i < 37 {
                assert(s[i] == h[i - 1]);
                assert(is_hyphen_position(i - 1) || is_hex_digit(h[i - 1]));
            }
        }
    } else {
        let p = s.subrange(0, 9);
        let h = s.subrange(9, 45);
        assert(urn_prefix()[0] == 'u');
        assert(s[0] == p[0]);
        assert(ascii_eq_ignore_case(p[0], urn_prefix()[0]));
        assert(is_hex_digit(h[35]));
        assert(s[44] == h[35]);
        assert forall|i: int| 0 <= i < s.len() implies (#[trigger] s[i] as int) < 128 by {
            if i < 9 {
                assert(s[i] == p[i]);
                assert(ascii_eq_ignore_case(p[i], urn_prefix()[i]));
                assert((urn_prefix()[i] as int) < 128);
            } else {
                assert(s[i] == h[i - 9]);
                assert(is_hyphen_position(i - 9) || is_hex_digit(h[i - 9]));
            }
        }
    }
}

/// Trimming twice is trimming once.
pub proof fn lemma_trim_idempotent(s: Seq<char>)
    ensures
        trimmed(trimmed(s)) == trimmed(s),
    decreases s.len(),
{
    if s.len() > 0 && is_white_space(s[0]) {
        lemma_trim_idempotent(s.drop_first());
    } else if s.len() > 0 && is_white_space(s.last()) {
        lemma_trim_idempotent(s.drop_last());
    }
}

/// Trims and lower-cases a raw header value. A valid UUID text that is
/// already in lower case comes back unchanged, and on ASCII text the result
/// is the trimmed text with its ASCII letters lowered.
pub fn normalize(s: &str) -> (r: String)
    ensures
        r@ == normalized(s@),
        is_ascii_text(trimmed(s@)) ==> is_ascii_lowering_of(r@, trimmed(s@)),
        is_uuid_text(s@) && has_no_ascii_upper(s@) ==> r@ == s@,
{
    let t = trim_white_space(s);
    let r = to_lower_case(t);
    proof {
        if is_uuid_text(s@) && has_no_ascii_upper(s@) {
            lemma_uuid_text_is_ascii(s@);
            lemma_trimmed_keeps_unpadded(s@);
            assert(r@ =~= s@);
        }
    }
    r
}

} // verus!
