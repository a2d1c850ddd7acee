//! Deployed-URL composition.
//!
//! The public URL of a stored object is the configured CDN base followed
//! by `/` and the object's public identifier — nothing else is ever
//! appended or rewritten.

use vstd::prelude::*;

verus! {

/// The deployed URL for public identifier `id` under CDN base `base`.
pub open spec fn spec_deployed_url(base: Seq<char>, id: Seq<char>) -> Seq<char> {
    base + seq!['/'] + id
}

/// Composes the deployed URL: the CDN base, a single `/`, the public
/// identifier.
pub fn compose_deployed_url(base: &str, id: &str) -> (url: String)
    ensures
        url@ == spec_deployed_url(base@, id@),
{
    proof {
        reveal_strlit("/");
        assert("/"@ =~= seq!['/']);
    }
    let mut url = base.to_owned();
    url.append("/");
    url.append(id);
    url
}

} // verus!
