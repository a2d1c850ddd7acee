//! The delete path's authorization decision.
//!
//! A stored file may be deleted only through its public identifier and
//! only by the account that owns it.  The decision is computed here
//! from the looked-up owner; acting on it — removing the object from
//! the bucket and the metadata row — is the caller's I/O.

use vstd::prelude::*;

verus! {

/// The outcome of an authorization check on a delete request.
#[derive(Clone, Copy, PartialEq, Eq, Structural, Debug)]
pub enum DeleteDecision {
    /// No file exists under the requested public identifier.
    NotFound,
    /// The file exists but belongs to another account.
    NotOwner,
    /// The requester owns the file; the delete may proceed.
    Allowed,
}

/// Decides a delete request from the owner of the looked-up file row
/// (`None` when no row matched the public identifier) and the
/// authenticated requester.
pub fn authorize_delete(owner: Option<i32>, requester: i32) -> (decision: DeleteDecision)
    ensures
        decision == DeleteDecision::NotFound <==> owner is None,
        decision == DeleteDecision::NotOwner <==> (owner is Some && owner->0 != requester),
        decision == DeleteDecision::Allowed <==> (owner is Some && owner->0 == requester),
{
    match owner {
        None => DeleteDecision::NotFound,
        Some(owner_id) => {
            if owner_id == requester {
                DeleteDecision::Allowed
            } else {
                DeleteDecision::NotOwner
            }
        },
    }
}

} // verus!
