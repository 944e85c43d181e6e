//! Fresh identifiers for spawned components and generated assets.

use vstd::prelude::*;

verus! {

/// Relies on `uuid::Uuid::new_v4` and its hyphenated display form: a
/// randomly drawn version-4 identifier rendered as 36 ASCII characters.
/// Nothing else is assumed of the value; in particular two calls may
/// return anything, so callers treat the result as an arbitrary string of
/// that length.
#[verifier::external_body]
pub(crate) fn fresh_component_id() -> (r: String)
    ensures
        r@.len() == 36,
{
    uuid::Uuid::new_v4().to_string()
}

} // verus!
