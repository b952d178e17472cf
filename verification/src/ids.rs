//! Fresh identifiers for scan results and sessions.

use vstd::prelude::*;

verus! {

/// Relies on `uuid::Uuid::new_v4` and the `Display` impl of `Uuid`: a
/// random version-4 UUID rendered in the hyphenated form, which is
/// always 36 characters. The value is random, so nothing more is
/// promised of it.
#[verifier::external_body]
pub fn fresh_id() -> (r: String)
    ensures
        r@.len() == 36,
{
    uuid::Uuid::new_v4().to_string()
}

} // verus!
