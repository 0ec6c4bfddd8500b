//! Entity identifiers: 128-bit UUID values, generated and printed by `uuid`.

use vstd::prelude::*;

verus! {

/// An entity identifier: the 128 bits of a UUID, most significant first.
pub type Id = u128;

/// The lowercase hexadecimal digits.
pub open spec fn hex_digits() -> Seq<char> {
    seq!['0', '1', '2', '3', '4', '5', '6', '7', '8', '9', 'a', 'b', 'c', 'd', 'e', 'f']
}

/// The `k`-th hexadecimal digit of `id`, counted from the most significant (`0 <= k < 32`).
pub open spec fn nibble(id: u128, k: int) -> int {
    ((id >> ((124 - 4 * k) as u128)) & 15u128) as int
}

/// How many dashes stand before position `p` of the hyphenated form.
pub open spec fn dashes_before(p: int) -> int {
    if p < 8 {
        0
    } else if p < 13 {
        1
    } else if p < 18 {
        2
    } else if p < 23 {
        3
    } else {
        4
    }
}

/// The hyphenated lowercase form of a UUID: 8-4-4-4-12 hexadecimal digits.
pub open spec fn id_text_of(id: u128) -> Seq<char> {
    Seq::new(
        36,
        |p: int|
            if p == 8 || p == 13 || p == 18 || p == 23 {
                '-'
            } else {
                hex_digits()[nibble(id, p - dashes_before(p))]
            },
    )
}

/// The bits that mark a random (version 4, RFC 4122 variant) UUID.
pub open spec fn is_random_uuid(id: u128) -> bool {
    id & 0x0000_0000_0000_F000_C000_0000_0000_0000u128 == 0x0000_0000_0000_4000_8000_0000_0000_0000u128
}

/// Relies on `uuid::Uuid::new_v4` and `Uuid::as_u128`: a random UUID whose
/// version nibble is 4 and whose variant bits are `10`. It panics only when the
/// operating system's random source fails.
#[verifier::external_body]
pub(crate) fn fresh_id() -> (r: Id)
    ensures
        is_random_uuid(r),
{
    uuid::Uuid::new_v4().as_u128()
}

/// Relies on `uuid::Uuid::from_u128` and its `Display`, which prints the
/// hyphenated lowercase form.
#[verifier::external_body]
pub(crate) fn id_text(id: Id) -> (r: String)
    ensures
        r@ == id_text_of(id),
{
    uuid::Uuid::from_u128(id).to_string()
}

} // verus!
