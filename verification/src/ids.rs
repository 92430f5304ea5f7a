//! Fresh document ids, minted from random UUIDs.

use vstd::prelude::*;

verus! {

/// Relies on `uuid::Uuid::new_v4` and its hyphenated `Display` form, which
/// prints any UUID as exactly 36 characters. The value itself is random, so
/// nothing more is promised of it.
#[verifier::external_body]
pub(crate) fn new_uuid_string() -> (r: String)
    ensures
        r@.len() == 36,
{
    uuid::Uuid::new_v4().to_string()
}

} // verus!
