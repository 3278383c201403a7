//! Identifiers of viewer connections and of terminal sessions.

use vstd::prelude::*;

verus! {

/// Identity of one viewer connection, assigned when the connection is
/// accepted: the 128 bits of a UUID.
#[derive(Clone, Copy, Debug, PartialEq, Eq, Structural, Hash)]
pub struct ConnectionId {
    pub value: u128,
}

/// The lower-case hexadecimal digit for a value from 0 to 15.
pub open spec fn hex_digit(value: u128) -> char {
    seq!['0', '1', '2', '3', '4', '5', '6', '7', '8', '9', 'a', 'b', 'c', 'd', 'e', 'f'][value as int]
}

/// The four bits of `bits` that make up its hexadecimal digit number `at`,
/// counted from the most significant digit, which is number 0, to number 31.
pub open spec fn nibble(bits: u128, at: int) -> u128 {
    (bits >> ((4 * (31 - at)) as u128)) & 0xf
}

/// The number of hyphens that stand before place `at` of a UUID's text.
pub open spec fn hyphens_before(at: int) -> int {
    if at > 23 {
        4
    } else if at > 18 {
        3
    } else if at > 13 {
        2
    } else if at > 8 {
        1
    } else {
        0
    }
}

/// The text of the UUID with the given bits, in the hyphenated lower-case
/// form: 36 characters, of which those at places 8, 13, 18 and 23 are hyphens
/// and the others are the 32 hexadecimal digits of the bits, the most
/// significant first.
pub open spec fn uuid_text(bits: u128) -> Seq<char> {
    Seq::new(
        36,
        |at: int|
            if at == 8 || at == 13 || at == 18 || at == 23 {
                '-'
            } else {
                hex_digit(nibble(bits, at - hyphens_before(at)))
            },
    )
}

/// Whether `bits` are those of a random UUID, one of version 4: the four
/// bits of the version field hold 4 and the two bits of the variant field
/// hold 1 and 0. The other 122 bits are free.
pub open spec fn is_random_uuid(bits: u128) -> bool {
    bits & 0xF000_C000_0000_0000_0000u128 == 0x4000_8000_0000_0000_0000u128
}

/// `uuid::Uuid::new_v4` followed by `Uuid::as_u128`: the 128 bits of a freshly
/// drawn random UUID. The bits come from the operating system's random
/// source; all that holds of every draw is that the version and variant
/// fields are those of version 4, which `new_v4` sets by masking the random
/// bits with `0xFFFFFFFFFFFF4FFFBFFFFFFFFFFFFFFF` and then setting
/// `0x40008000000000000000`.
#[verifier::external_body]
fn random_uuid_bits() -> (bits: u128)
    ensures
        is_random_uuid(bits),
{
    uuid::Uuid::new_v4().as_u128()
}

/// `uuid::Uuid::from_u128` rendered through `Uuid::hyphenated`: the text of
/// the UUID with the given bits, which is its 32 lower-case hexadecimal
/// digits in groups of 8, 4, 4, 4 and 12 with hyphens between the groups.
#[verifier::external_body]
fn format_uuid(bits: u128) -> (text: String)
    ensures
        text@ == uuid_text(bits),
{
    uuid::Uuid::from_u128(bits).hyphenated().to_string()
}

impl ConnectionId {
    /// The connection identifier with the given bits.
    pub fn from_u128(value: u128) -> (id: ConnectionId)
        ensures
            id.value == value,
    {
        ConnectionId { value }
    }

    /// Draws a fresh identifier for a newly accepted connection: the bits of
    /// a random UUID.
    pub(crate) fn generate() -> (id: ConnectionId)
        ensures
            is_random_uuid(id.value),
    {
        ConnectionId { value: random_uuid_bits() }
    }

    /// The identifier written as a UUID.
    pub fn to_text(&self) -> (text: String)
        ensures
            text@ == uuid_text(self.value),
    {
        format_uuid(self.value)
    }
}

/// Whether `id` is the text of a random UUID.
pub open spec fn is_random_uuid_text(id: Seq<char>) -> bool {
    exists|bits: u128| is_random_uuid(bits) && id == #[trigger] uuid_text(bits)
}

/// Draws an identifier for a session whose creator did not name one: the
/// text of a random UUID.
pub(crate) fn generate_session_id() -> (id: String)
    ensures
        is_random_uuid_text(id@),
{
    format_uuid(random_uuid_bits())
}

} // verus!
