//! Player identities. An identity is the 128-bit value of a UUID; its text
//! form is parsed, and fresh ones are minted, by the `uuid` library.

use vstd::prelude::*;

verus! {

/// The identity that `uuid::Uuid::parse_str` reads from a text, or `None`
/// where it rejects the text.
pub uninterp spec fn identity_of_text(text: Seq<char>) -> Option<u128>;

/// Parses a text with `uuid::Uuid::parse_str` and hands back the value of the
/// UUID (`Uuid::as_u128`), or `None` on a parse error. The result depends on
/// the text alone; what it is stays unstated here.
#[verifier::external_body]
pub(crate) fn parse_identity(text: &str) -> (r: Option<u128>)
    ensures
        r == identity_of_text(text@),
{
    match uuid::Uuid::parse_str(text) {
        Ok(id) => Some(id.as_u128()),
        Err(_) => None,
    }
}

/// Mints a random identity with `uuid::Uuid::new_v4`. Nothing is claimed of
/// the value: callers check it against the roster themselves.
#[verifier::external_body]
pub(crate) fn mint_identity() -> (r: u128) {
    uuid::Uuid::new_v4().as_u128()
}

/// The text that the `uuid` library writes for an identity: what `to_string`
/// gives for the UUID with this value.
pub uninterp spec fn text_of_identity(uuid: u128) -> Seq<char>;

/// Writes an identity as text: builds the UUID with `uuid::Uuid::from_u128`
/// and formats it with its `to_string`. The text depends on the value alone.
/// `uuid::Uuid::parse_str` reads every format that the library writes, so
/// parsing the text gives the identity back.
#[verifier::external_body]
fn format_identity(uuid: u128) -> (r: String)
    ensures
        r@ == text_of_identity(uuid),
        identity_of_text(r@) == Some(uuid),
{
    uuid::Uuid::from_u128(uuid).to_string()
}

/// The token that a player is given at registration and sends with every
/// request: the identity as text. Reading the token gives the identity back.
pub fn identity_token(uuid: u128) -> (r: String)
    ensures
        r@ == text_of_identity(uuid),
        identity_of_text(r@) == Some(uuid),
{
    format_identity(uuid)
}

} // verus!
