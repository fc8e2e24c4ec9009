//! Fresh identifiers for films, students and queue items.

use vstd::prelude::*;

verus! {

/// Draws a random version-4 UUID with `uuid::Uuid::new_v4` and hands it out
/// as the 128-bit number `uuid::Uuid::as_u128` gives for it.
///
/// Nothing is promised of the value: two calls may return anything, and
/// callers must not rely on the result being unused so far.
#[verifier::external_body]
pub(crate) fn fresh_id() -> (id: u128) {
    uuid::Uuid::new_v4().as_u128()
}

} // verus!
