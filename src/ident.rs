//! User identifiers: 128-bit values whose text form is the canonical
//! hyphenated UUID, read and written through the `uuid` crate.
use vstd::prelude::*;

verus! {

pub open spec fn hex_char(d: nat) -> char
    recommends
        d < 16,
{
    seq!['0', '1', '2', '3', '4', '5', '6', '7', '8', '9', 'a', 'b', 'c', 'd', 'e', 'f'][d as int]
}

/// The last `n` lower-case hexadecimal digits of `v`, most significant first.
pub open spec fn hex_digits(v: nat, n: nat) -> Seq<char>
    decreases n,
{
    if n == 0 {
        seq![]
    } else {
        hex_digits(v / 16, (n - 1) as nat).push(hex_char(v % 16))
    }
}

/// The hyphenated text of an identifier: 32 hex digits grouped 8-4-4-4-12.
pub open spec fn uuid_text_of(v: u128) -> Seq<char> {
    let h = hex_digits(v as nat, 32);
    h.subrange(0, 8) + seq!['-'] + h.subrange(8, 12) + seq!['-'] + h.subrange(12, 16) + seq![
        '-',
    ] + h.subrange(16, 20) + seq!['-'] + h.subrange(20, 32)
}

pub open spec fn pow16(n: nat) -> nat
    decreases n,
{
    if n == 0 {
        1
    } else {
        16 * pow16((n - 1) as nat)
    }
}

/// The hex digit of `v` that stands `k` places from the right.
pub open spec fn nibble(v: nat, k: nat) -> nat {
    (v / pow16(k)) % 16
}

/// A random (version 4, RFC 4122 variant) identifier: its version digit is
/// 4 and its variant digit is one of 8, 9, a, b.
pub open spec fn is_v4(v: u128) -> bool {
    &&& nibble(v as nat, 19) == 4
    &&& 8 <= nibble(v as nat, 15) < 12
}

/// The identifier that a text denotes under the `uuid` crate's parser, if any.
pub uninterp spec fn uuid_parse_of(s: Seq<char>) -> Option<u128>;

/// Only texts of 32 (simple), 36 (hyphenated), 38 (braced) or 45 (URN)
/// characters can denote an identifier.
pub open spec fn has_uuid_length(s: Seq<char>) -> bool {
    s.len() == 32 || s.len() == 36 || s.len() == 38 || s.len() == 45
}

/// Relies on `uuid::Uuid::parse_str`: the identifier a text denotes, or none
/// when the text is no identifier; `Uuid::as_u128` reads out its value. Its
/// parser refuses every input of another length than the four forms have, and
/// reads the hyphenated lower-case form back to the value it was written from.
#[verifier::external_body]
fn parse_uuid(s: &str) -> (r: Option<u128>)
    ensures
        r == uuid_parse_of(s@),
        !has_uuid_length(s@) ==> r is None,
        forall|v: u128| #[trigger] uuid_text_of(v) == s@ ==> r == Some(v),
{
    match uuid::Uuid::parse_str(s) {
        Ok(u) => Some(u.as_u128()),
        Err(_) => None,
    }
}

/// Relies on the `Display` of `uuid::Uuid` (built by `Uuid::from_u128`): it
/// writes the hyphenated lower-case form.
#[verifier::external_body]
fn uuid_text(v: u128) -> (r: String)
    ensures
        r@ == uuid_text_of(v),
{
    uuid::Uuid::from_u128(v).to_string()
}

/// Relies on `uuid::Uuid::new_v4`: random bits, with the version and variant
/// bits set to those of a version-4 identifier.
#[verifier::external_body]
fn random_uuid() -> (r: u128)
    ensures
        is_v4(r),
{
    uuid::Uuid::new_v4().as_u128()
}

/// A user's unique identifier.
#[derive(Debug, Clone, Copy, PartialEq, Eq, Structural)]
pub struct UserId {
    pub value: u128,
}

impl UserId {
    /// Reads an identifier in any textual form the `uuid` crate accepts.
    pub fn parse(text: &str) -> (r: Option<UserId>)
        ensures
            r == match uuid_parse_of(text@) {
                Some(v) => Some(UserId { value: v }),
                None => None,
            },
            !has_uuid_length(text@) ==> r is None,
            forall|v: u128| #[trigger] uuid_text_of(v) == text@ ==> r == Some(UserId { value: v }),
    {
        match parse_uuid(text) {
            Some(v) => Some(UserId { value: v }),
            None => None,
        }
    }

    /// The canonical hyphenated text of the identifier.
    pub fn to_text(&self) -> (r: String)
        ensures
            r@ == uuid_text_of(self.value),
    {
        uuid_text(self.value)
    }

    /// A fresh random version-4 identifier.
    pub fn random() -> (r: UserId)
        ensures
            is_v4(r.value),
    {
        UserId { value: random_uuid() }
    }
}


proof fn lemma_pow16_succ(k: nat)
    ensures
        pow16(k + 1) == 16 * pow16(k),
        pow16(k) > 0,
    decreases k,
{
    if k > 0 {
        lemma_pow16_succ((k - 1) as nat);
    }
}

/// Digit `i` of the last `n` hex digits of `v` is the nibble `n - 1 - i`
/// places from the right.
proof fn lemma_hex_digit(v: nat, n: nat, i: int)
    requires
        0 <= i < n,
    ensures
        hex_digits(v, n).len() == n,
        hex_digits(v, n)[i] == hex_char(nibble(v, (n - 1 - i) as nat)),
    decreases n,
{
    lemma_hex_digits_len(v, n);
    lemma_hex_digits_len(v / 16, (n - 1) as nat);
    if i < n - 1 {
        let k = (n - 2 - i) as nat;
        lemma_hex_digit(v / 16, (n - 1) as nat, i);
        assert(hex_digits(v, n)[i] == hex_digits(v / 16, (n - 1) as nat)[i]);
        lemma_pow16_succ(k);
        vstd::arithmetic::div_mod::lemma_div_denominator(v as int, 16, pow16(k) as int);
        assert((k + 1) as nat == (n - 1 - i) as nat);
        assert(nibble(v, (k + 1) as nat) == nibble(v / 16, k));
    } else {
        assert(pow16(0) == 1);
        assert(v / pow16(0) == v);
    }
}

proof fn lemma_hex_digits_len(v: nat, n: nat)
    ensures
        hex_digits(v, n).len() == n,
    decreases n,
{
    if n > 0 {
        lemma_hex_digits_len(v / 16, (n - 1) as nat);
    }
}

/// The text of a version-4 identifier has `4` at index 14 and one of
/// `8`, `9`, `a`, `b` at index 19.
pub proof fn lemma_v4_text(v: u128)
    requires
        is_v4(v),
    ensures
        uuid_text_of(v).len() == 36,
        uuid_text_of(v)[14] == '4',
        uuid_text_of(v)[19] == '8' || uuid_text_of(v)[19] == '9' || uuid_text_of(v)[19] == 'a'
            || uuid_text_of(v)[19] == 'b',
{
    let h = hex_digits(v as nat, 32);
    lemma_hex_digit(v as nat, 32, 12);
    lemma_hex_digit(v as nat, 32, 16);
    assert(uuid_text_of(v)[14] == h[12]);
    assert(uuid_text_of(v)[19] == h[16]);
}

} // verus!
