//! Fresh random identifiers, drawn from the process's entropy source.

use vstd::prelude::*;

verus! {

/// Relies on uuid::Uuid::new_v4 and its hyphenated Display form: a fresh
/// random identifier rendered as 36 characters. Nothing is assumed about
/// which identifier comes back.
#[verifier::external_body]
pub fn fresh_uuid_string() -> (r: String)
    ensures
        r@.len() == 36,
{
    uuid::Uuid::new_v4().to_string()
}

/// Relies on uuid::Uuid::new_v4 and Uuid::as_bytes: the sixteen bytes of
/// a fresh random identifier. Nothing is assumed about the byte values.
#[verifier::external_body]
pub fn fresh_uuid_bytes() -> (r: Vec<u8>)
    ensures
        r@.len() == 16,
{
    uuid::Uuid::new_v4().as_bytes().to_vec()
}

} // verus!
