//! Session identifiers, drawn and read through the `uuid` crate.
use vstd::prelude::*;

verus! {

#[verifier::external_type_specification]
#[verifier::external_body]
pub struct ExUuidError(uuid::Error);

/// The 128-bit value that `uuid` reads from a string, if it reads one.
pub uninterp spec fn parsed_uuid(s: Seq<char>) -> Option<u128>;

/// Relies on `uuid::Uuid::parse_str` (with `Uuid::as_u128`): the value it
/// reads depends on the string alone, and an empty string is refused.
#[verifier::external_body]
pub(crate) fn parse_uuid(s: &str) -> (r: Result<u128, uuid::Error>)
    ensures
        match r {
            Ok(v) => parsed_uuid(s@) == Some(v),
            Err(_) => parsed_uuid(s@) is None,
        },
        s@.len() == 0 ==> r is Err,
{
    match uuid::Uuid::parse_str(s) {
        Ok(u) => Ok(u.as_u128()),
        Err(e) => Err(e),
    }
}

/// Relies on `uuid::Uuid::new_v4` (with `Uuid::as_u128`): a random
/// identifier whose version field is 4.
#[verifier::external_body]
pub(crate) fn new_session_id() -> (r: u128)
    ensures
        (r >> 76u128) & 0xfu128 == 4,
{
    uuid::Uuid::new_v4().as_u128()
}

} // verus!
