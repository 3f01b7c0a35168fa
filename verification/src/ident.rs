//! Account identifiers: universally unique identifiers, held as 128-bit numbers.

use vstd::prelude::*;
use uuid::Uuid;

verus! {

/// The bits of an identifier that its version and its variant occupy.
pub const VERSION_AND_VARIANT: u128 = 0x0000_0000_0000_f000_c000_0000_0000_0000;

/// What those bits hold in a random identifier: version 4, and the variant of RFC 9562.
pub const RANDOM_VERSION: u128 = 0x0000_0000_0000_4000_8000_0000_0000_0000;

/// The text that the `uuid` crate writes for the identifier with the given
/// bits: its hexadecimal digits in lower case, in five groups with hyphens between them.
pub uninterp spec fn uuid_text(bits: u128) -> Seq<char>;

/// `Uuid::new_v4`, read as a number by `Uuid::as_u128`: a fresh identifier
/// from the operating system's random numbers. Nothing is known of the result
/// but that it bears the version and the variant of a random identifier.
/// The call panics where the operating system has no random numbers to give.
#[verifier::external_body]
fn random_bits() -> (bits: u128)
    ensures
        bits & VERSION_AND_VARIANT == RANDOM_VERSION,
{
    Uuid::new_v4().as_u128()
}

/// `Display` of `Uuid`, on the identifier that `Uuid::from_u128` makes of
/// `bits`: the text depends on the bits alone and is named `uuid_text`.
#[verifier::external_body]
fn format_bits(bits: u128) -> (text: String)
    ensures
        text@ == uuid_text(bits),
{
    Uuid::from_u128(bits).to_string()
}

/// What names an account.
#[derive(Clone, Copy, Debug, PartialEq, Eq, Hash, Structural)]
pub struct AccountId {
    pub bits: u128,
}

impl AccountId {
    /// The identifier with the given bits.
    pub fn from_u128(bits: u128) -> (id: AccountId)
        ensures
            id.bits == bits,
    {
        AccountId { bits }
    }

    /// A fresh random identifier.
    pub fn generate() -> (id: AccountId)
        ensures
            id.bits & VERSION_AND_VARIANT == RANDOM_VERSION,
    {
        AccountId { bits: random_bits() }
    }

    /// The bits of the identifier.
    pub fn as_u128(&self) -> (bits: u128)
        ensures
            bits == self.bits,
    {
        self.bits
    }

    /// The identifier as text.
    pub fn to_text(&self) -> (text: String)
        ensures
            text@ == uuid_text(self.bits),
    {
        format_bits(self.bits)
    }
}

} // verus!
