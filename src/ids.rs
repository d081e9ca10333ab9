use vstd::prelude::*;

use crate::errors::{Error, ErrorKind};

verus! {

/// The bits of a UUID that hold its version nibble and its variant field.
pub const VERSION_VARIANT_MASK: u128 = 0x0000_0000_0000_f000_c000_0000_0000_0000;

/// Those bits in a random (version 4, RFC 4122 variant) UUID.
pub const RANDOM_VERSION_VARIANT: u128 = 0x0000_0000_0000_4000_8000_0000_0000_0000;

/// The 128-bit value of the UUID that `text` spells, if it spells one.
pub uninterp spec fn parsed_uuid(text: Seq<char>) -> Option<u128>;

/// Relies on `uuid::Uuid::parse_str`, which depends on the text alone, and on
/// `Uuid::as_u128`, which reads the 16 bytes as one big-endian integer.
#[verifier::external_body]
fn parse_uuid(text: &str) -> (r: Option<u128>)
    ensures
        r == parsed_uuid(text@),
{
    match uuid::Uuid::parse_str(text) {
        Ok(u) => Some(u.as_u128()),
        Err(_) => None,
    }
}

/// Relies on `uuid::Uuid::new_v4`: random bits, with the version nibble set
/// to 4 and the variant bits to `10`.
#[verifier::external_body]
fn random_uuid() -> (r: u128)
    ensures
        r & VERSION_VARIANT_MASK == RANDOM_VERSION_VARIANT,
{
    uuid::Uuid::new_v4().as_u128()
}

/// A fresh random identifier for a new todo.
pub fn new_todo_id() -> (r: u128)
    ensures
        r & VERSION_VARIANT_MASK == RANDOM_VERSION_VARIANT,
{
    random_uuid()
}

/// Reads a todo identifier from its textual UUID form.
pub fn parse_todo_id(text: &str) -> (r: Result<u128, Error>)
    ensures
        match parsed_uuid(text@) {
            Some(v) => r == Ok::<u128, Error>(v),
            None => r is Err && r->Err_0.kind == ErrorKind::Validation,
        },
{
    match parse_uuid(text) {
        Some(v) => Ok(v),
        None => Err(Error::with_text(ErrorKind::Validation, "malformed todo identifier")),
    }
}

} // verus!
