//! Fresh identifiers for connections, sessions and created records.

use vstd::prelude::*;

verus! {

/// Relies on `uuid::Uuid::new_v4` and its `Display` form: a fresh random
/// version-4 UUID, rendered in the hyphenated format of 36 characters.
/// The value is random, so nothing relates two calls; only the length is
/// promised.
#[verifier::external_body]
pub(crate) fn fresh_uuid() -> (r: String)
    ensures
        r@.len() == 36,
{
    uuid::Uuid::new_v4().to_string()
}

} // verus!
