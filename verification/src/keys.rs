//! Storage-key and public-identifier generation.
//!
//! Identifiers are generated server-side, never derived from caller
//! input: each one is a fresh time-ordered unique id, so storage keys
//! sort roughly by creation time and collisions are effectively
//! impossible.

use vstd::prelude::*;

verus! {

/// Relies on uuid::Uuid::now_v7 and its Display form: a version-7 UUID
/// rendered as 36 hyphenated ASCII characters.  The value depends on
/// the clock and on random state, so nothing is said of it beyond its
/// shape.
#[verifier::external_body]
pub fn fresh_object_key() -> (key: String)
    ensures
        key@.len() == 36,
{
    uuid::Uuid::now_v7().to_string()
}

} // verus!
