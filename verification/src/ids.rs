//! Identifiers. A UUID is carried as its 128-bit value (`u128`, most
//! significant byte first, as `Uuid::as_u128` gives it); the `uuid` crate
//! formats and derives them.
use vstd::prelude::*;

verus! {

/// The RFC 4122 variant: the two bits above the low 62 are `10`.
pub open spec fn rfc_variant(id: u128) -> bool {
    ((id as int) / vstd::arithmetic::power::pow(2, 62)) % 4 == 2
}


/// The lower-case hexadecimal digit for `n` (`0..=15`).
pub open spec fn hex_digit(n: int) -> char {
    if n < 10 {
        (('0' as u32) + n) as char
    } else {
        (('a' as u32) + n - 10) as char
    }
}

/// Hexadecimal digit `k` (`0..=31`, most significant first) of `u`.
pub open spec fn nibble(u: u128, k: int) -> int {
    ((u as int) / vstd::arithmetic::power::pow(16, (31 - k) as nat)) % 16
}

/// The number of digits before text position `i` of the hyphenated form.
pub open spec fn digit_index(i: int) -> int {
    if i < 8 {
        i
    } else if i < 13 {
        i - 1
    } else if i < 18 {
        i - 2
    } else if i < 23 {
        i - 3
    } else {
        i - 4
    }
}

/// The hyphenated lower-case text of a UUID: 32 hex digits in groups of
/// 8-4-4-4-12.
pub open spec fn hyphenated(u: u128) -> Seq<char> {
    Seq::new(
        36,
        |i: int|
            if i == 8 || i == 13 || i == 18 || i == 23 {
                '-'
            } else {
                hex_digit(nibble(u, digit_index(i)))
            },
    )
}

/// `Uuid::to_string`: the UUID's hyphenated lower-case text, as the `uuid`
/// crate's `Display` (via `LowerHex` and `format_hyphenated`) writes it.
#[verifier::external_body]
pub(crate) fn uuid_text(u: u128) -> (s: String)
    ensures
        s@ == hyphenated(u),
{
    uuid::Uuid::from_u128(u).to_string()
}

/// The name-based (SHA-1, version 5) UUID that `Uuid::new_v5` derives from a
/// namespace and the sixteen bytes of another UUID.
pub uninterp spec fn uuid_v5(namespace: u128, name: u128) -> u128;

/// `Uuid::new_v5(namespace, name.as_bytes())`. The result is a function of
/// the namespace and the name alone; `Builder::from_sha1_bytes` sets the
/// version digit to 5 and the RFC 4122 variant bits to `10`.
#[verifier::external_body]
pub(crate) fn new_v5(namespace: u128, name: u128) -> (r: u128)
    ensures
        r == uuid_v5(namespace, name),
        nibble(r, 12) == 5,
        rfc_variant(r),
{
    let ns = uuid::Uuid::from_u128(namespace);
    let n = uuid::Uuid::from_u128(name);
    uuid::Uuid::new_v5(&ns, n.as_bytes()).as_u128()
}

/// The namespace under which rendered documents get their ids
/// (`3bc0f83e-28df-5d9b-a7e2-90a6c8f2fbb4`).
pub const RENDERED_DOKUMENT_NAMESPACE: u128 = 0x3bc0f83e28df5d9ba7e290a6c8f2fbb4u128;

/// The id under which the PDF rendered from a template document is stored: a
/// version 5 UUID of the document id, so every attempt renders to the same id.
pub fn rendered_dokument_id(dokument_id: u128) -> (r: u128)
    ensures
        r == uuid_v5(RENDERED_DOKUMENT_NAMESPACE, dokument_id),
        nibble(r, 12) == 5,
{
    new_v5(RENDERED_DOKUMENT_NAMESPACE, dokument_id)
}

/// `Uuid::now_v7()`: a new time-ordered id from the clock and random bits.
/// Nothing is promised of its value but what `encode_unix_timestamp_millis`
/// always sets: the version digit 7 and the RFC 4122 variant bits `10`.
#[verifier::external_body]
pub(crate) fn new_v7() -> (r: u128)
    ensures
        nibble(r, 12) == 7,
        rfc_variant(r),
{
    uuid::Uuid::now_v7().as_u128()
}

} // verus!
