//! Identifiers in canonical textual form: 32 hexadecimal digits in groups of
//! 8-4-4-4-12, separated by hyphens.

use vstd::prelude::*;

verus! {

/// Length of the canonical textual form.
pub const CANONICAL_LEN: usize = 36;

pub open spec fn is_separator_position(i: int) -> bool {
    i == 8 || i == 13 || i == 18 || i == 23
}

pub open spec fn is_hex_char(c: char) -> bool {
    ('0' <= c && c <= '9') || ('a' <= c && c <= 'f') || ('A' <= c && c <= 'F')
}

pub open spec fn is_lower_hex_char(c: char) -> bool {
    ('0' <= c && c <= '9') || ('a' <= c && c <= 'f')
}

/// `s` is an identifier in canonical form (hex digits of either case).
pub open spec fn is_canonical(s: Seq<char>) -> bool {
    &&& s.len() == 36
    &&& forall|i: int|
        0 <= i < 36 ==> if is_separator_position(i) {
            s[i] == '-'
        } else {
            is_hex_char(#[trigger] s[i])
        }
}

/// `s` is in canonical form and its digits are lower case.
pub open spec fn is_canonical_lower(s: Seq<char>) -> bool {
    &&& is_canonical(s)
    &&& forall|i: int| 0 <= i < 36 && !is_separator_position(i) ==> is_lower_hex_char(#[trigger] s[i])
}

pub open spec fn hex_value(c: char) -> int {
    if '0' <= c && c <= '9' {
        c as int - '0' as int
    } else if 'a' <= c && c <= 'f' {
        c as int - 'a' as int + 10
    } else if 'A' <= c && c <= 'F' {
        c as int - 'A' as int + 10
    } else {
        0
    }
}

/// The number written by the hex digits of `s`, most significant first;
/// hyphens are skipped.
pub open spec fn digits_value(s: Seq<char>) -> int
    decreases s.len(),
{
    if s.len() == 0 {
        0
    } else if s.last() == '-' {
        digits_value(s.drop_last())
    } else {
        digits_value(s.drop_last()) * 16 + hex_value(s.last())
    }
}

/// An identifier that passed validation, held as its 128-bit value.
#[derive(Clone, Copy, Debug, PartialEq, Eq, Hash, Structural)]
pub struct CanonicalId {
    pub value: u128,
}

/// Ways an identifier can fail to parse; the offending text is kept.
#[derive(Clone, Debug, PartialEq, Eq)]
pub struct InvalidId {
    pub raw: String,
}

/// Relies on uuid's `Uuid::parse_str`: an input of 36 ASCII bytes in the
/// hyphenated layout with hex digits of either case is accepted, and
/// `as_u128` gives the digits read as one big-endian number.
#[verifier::external_body]
fn uuid_value(raw: &str) -> (r: Option<u128>)
    ensures
        is_canonical(raw@) ==> r is Some && r->0 as int == digits_value(raw@),
{
    sqlx::types::Uuid::parse_str(raw).ok().map(|u| u.as_u128())
}

/// Relies on uuid's `Uuid::from_u128` and the `Display` of `Hyphenated`:
/// the value is written as 32 lower-case hex digits, most significant first,
/// in groups of 8-4-4-4-12 separated by hyphens.
#[verifier::external_body]
fn uuid_text(value: u128) -> (r: String)
    ensures
        is_canonical_lower(r@),
        digits_value(r@) == value as int,
{
    sqlx::types::Uuid::from_u128(value).hyphenated().to_string()
}

/// Tells whether `raw` has the canonical layout.
pub fn is_canonical_text(raw: &str) -> (r: bool)
    ensures
        r == is_canonical(raw@),
{
    let n = raw.unicode_len();
    if n != CANONICAL_LEN {
        return false;
    }
    let mut i: usize = 0;
    while i < n
        invariant
            n == raw@.len(),
            n == 36,
            i <= n,
            forall|j: int|
                0 <= j < i ==> if is_separator_position(j) {
                    raw@[j] == '-'
                } else {
                    is_hex_char(#[trigger] raw@[j])
                },
        decreases n - i,
    {
        let c = raw.get_char(i);
        let ok = if i == 8 || i == 13 || i == 18 || i == 23 {
            c == '-'
        } else {
            ('0' <= c && c <= '9') || ('a' <= c && c <= 'f') || ('A' <= c && c <= 'F')
        };
        if !ok {
            assert(!is_canonical(raw@) || raw@[i as int] == c);
            return false;
        }
        i = i + 1;
    }
    true
}

impl CanonicalId {
    /// Validates `raw` and reads its value. Anything but the canonical
    /// layout (empty, wrong length, a non-hex digit, a missing or misplaced
    /// hyphen, braces or a prefix) is refused with the raw text.
    pub fn parse(raw: &str) -> (r: Result<CanonicalId, InvalidId>)
        ensures
            r is Ok <==> is_canonical(raw@),
            r is Ok ==> r->Ok_0.value as int == digits_value(raw@),
            r is Err ==> r->Err_0.raw@ == raw@,
    {
        if !is_canonical_text(raw) {
            return Err(InvalidId { raw: raw.to_string() });
        }
        match uuid_value(raw) {
            Some(value) => Ok(CanonicalId { value }),
            None => Err(InvalidId { raw: raw.to_string() }),
        }
    }

    /// The canonical text of this identifier, in lower case.
    pub fn to_text(&self) -> (r: String)
        ensures
            is_canonical_lower(r@),
            digits_value(r@) == self.value as int,
    {
        uuid_text(self.value)
    }
}

} // verus!
