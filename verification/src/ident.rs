//! Call identifiers. The engine numbers its calls with 128-bit values; a call
//! record carries the number as text, and a command on the record turns the
//! text back into the number.

use crate::commands::SipError;
use vstd::prelude::*;

verus! {

/// `uuid::Error`: why a text is not read as a number. It is handed on unread.
#[verifier::external_type_specification]
#[verifier::external_body]
pub struct ExUuidError(uuid::Error);

/// The number that the `uuid` crate reads from a text, if it reads one.
pub uninterp spec fn uuid_value(text: Seq<char>) -> Option<u128>;

/// The text that the `uuid` crate writes for a number.
pub uninterp spec fn uuid_text(value: u128) -> Seq<char>;

/// `uuid::Uuid::parse_str`, followed by `Uuid::as_u128` on what was read.
/// Trusted: whether a text is read, and as which number, depends on the text
/// alone.
#[verifier::external_body]
fn parse_uuid(text: &str) -> (r: Result<u128, uuid::Error>)
    ensures
        match r {
            Ok(value) => uuid_value(text@) == Some(value),
            Err(_) => uuid_value(text@) is None,
        },
{
    match uuid::Uuid::parse_str(text) {
        Ok(id) => Ok(id.as_u128()),
        Err(e) => Err(e),
    }
}

/// `Uuid::to_string` on `uuid::Uuid::from_u128(value)`: the hyphenated
/// lower-case form. Trusted: the text depends on the number alone, and
/// `parse_str` reads from it the number it was written for, as the crate
/// says of every form that it writes.
#[verifier::external_body]
fn format_uuid(value: u128) -> (r: String)
    ensures
        r@ == uuid_text(value),
        uuid_value(r@) == Some(value),
{
    uuid::Uuid::from_u128(value).to_string()
}

/// The number by which the engine knows the call whose record carries `id`.
pub open spec fn engine_id_of(id: Seq<char>) -> Result<u128, SipError> {
    match uuid_value(id) {
        Some(value) => Ok(value),
        None => Err(SipError::InvalidIdentifier),
    }
}

/// See [`engine_id_of`].
pub fn engine_call_id(id: &str) -> (r: Result<u128, SipError>)
    ensures
        r == engine_id_of(id@),
{
    match parse_uuid(id) {
        Ok(value) => Ok(value),
        Err(_) => Err(SipError::InvalidIdentifier),
    }
}

/// The identifier that a call record carries for the engine's call `value`.
/// The number read from it is `value` again.
pub fn local_call_id(value: u128) -> (r: String)
    ensures
        r@ == uuid_text(value),
        uuid_value(r@) == Some(value),
        engine_id_of(r@) == Ok::<u128, SipError>(value),
{
    format_uuid(value)
}

} // verus!
