//! Random 128-bit identifiers, as the `uuid` crate makes and prints them.

use vstd::prelude::*;

verus! {

/// The text that `uuid` prints for the identifier with the given 128 bits:
/// what `Display` gives for `uuid::Uuid::from_u128(bits)`.
pub uninterp spec fn uuid_text(bits: u128) -> Seq<char>;

/// Draws a fresh random identifier.
///
/// Trusted: calls `uuid::Uuid::new_v4` and hands back its 128 bits
/// (`Uuid::as_u128`). The bits come from the operating system's random
/// source, so nothing is claimed about them: two calls may give any two
/// values.
#[verifier::external_body]
pub(crate) fn fresh_id() -> (id: u128) {
    uuid::Uuid::new_v4().as_u128()
}

/// Prints an identifier the way `uuid` does.
///
/// Trusted: builds the `Uuid` with `Uuid::from_u128` and formats it with its
/// `Display` impl. The text depends on the 128 bits alone. The contract only
/// gives that text its name, [`uuid_text`]; it says nothing about the
/// characters.
#[verifier::external_body]
pub(crate) fn id_text(id: u128) -> (text: String)
    ensures
        text@ == uuid_text(id),
{
    format!("{}", uuid::Uuid::from_u128(id))
}

} // verus!
