//! Stable identities. Every node, block, choice option and character is
//! identified by a random (version 4) UUID, held here as its 128-bit value.

use vstd::prelude::*;

verus! {

/// The lowercase hexadecimal digit for a value below 16.
pub open spec fn hex_char(d: nat) -> char {
    if d < 10 {
        ((d + 48) as u8) as char
    } else {
        ((d + 87) as u8) as char
    }
}

/// The last `n` hexadecimal digits of `v`, most significant first, in
/// lowercase and padded with zeros.
pub open spec fn hex_digits(v: nat, n: nat) -> Seq<char>
    decreases n,
{
    if n == 0 {
        Seq::empty()
    } else {
        hex_digits(v / 16, (n - 1) as nat).push(hex_char(v % 16))
    }
}

/// Whether `c` is an ASCII hexadecimal digit (either case).
pub open spec fn is_hex_char(c: char) -> bool {
    ('0' <= c && c <= '9') || ('a' <= c && c <= 'f') || ('A' <= c && c <= 'F')
}

/// `char::is_ascii_hexdigit`.
pub fn is_ascii_hexdigit(c: char) -> (r: bool)
    ensures
        r == is_hex_char(c),
{
    ('0' <= c && c <= '9') || ('a' <= c && c <= 'f') || ('A' <= c && c <= 'F')
}

/// Every character `hex_digits` produces is a hexadecimal digit, and there
/// are exactly `n` of them.
pub proof fn lemma_hex_digits(v: nat, n: nat)
    ensures
        hex_digits(v, n).len() == n,
        forall|i: int| 0 <= i < n ==> is_hex_char(#[trigger] hex_digits(v, n)[i]),
    decreases n,
{
    if n > 0 {
        lemma_hex_digits(v / 16, (n - 1) as nat);
        let d = v % 16;
        assert(is_hex_char(hex_char(d))) by {
            if d < 10 {
                assert((d + 48) as u8 as char == ((d + 48) as u8) as char);
            }
        }
    }
}

/// `Uuid::new_v4().as_u128()`: a fresh random identity. Nothing is known of
/// the value beyond its type: it comes from the operating system's random
/// number generator.
#[verifier::external_body]
pub(crate) fn fresh_id() -> (id: u128) {
    uuid::Uuid::new_v4().as_u128()
}

/// `Uuid::simple` formatting: the 32 lowercase hexadecimal digits of the
/// identity, most significant first (e.g. `67e5504410b1426f9247bb680e5fe0c8`).
#[verifier::external_body]
pub(crate) fn simple_hex(id: u128) -> (s: String)
    ensures
        s@ == hex_digits(id as nat, 32),
{
    uuid::Uuid::from_u128(id).simple().to_string()
}

/// Whether the `uuid` crate's string parser accepts `s` as a UUID (any of
/// its accepted spellings: simple, hyphenated, braced, URN).
pub uninterp spec fn parses_as_uuid(s: Seq<char>) -> bool;

/// `s.parse::<Uuid>().is_ok()`.
#[verifier::external_body]
pub(crate) fn str_parses_as_uuid(s: &str) -> (r: bool)
    ensures
        r == parses_as_uuid(s@),
{
    s.parse::<uuid::Uuid>().is_ok()
}

} // verus!
