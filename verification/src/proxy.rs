//! Decisions of the storage proxy.
//!
//! The proxy serves a stored object by fetching it from the backing
//! store under its storage key and relaying the response.  Hop-by-hop
//! headers must not be forwarded: the `host` and `connection` headers
//! are dropped, every other header passes through unchanged.  (Header
//! names compare in their canonical lowercase form.)

use vstd::prelude::*;

verus! {

/// Character-by-character string equality.
fn str_eq(a: &str, b: &str) -> (eq: bool)
    ensures
        eq == (a@ == b@),
{
    let n: usize = a.unicode_len();
    let m: usize = b.unicode_len();
    if n != m {
        return false;
    }
    let mut i: usize = 0;
    while i < n
        invariant
            n == a@.len(),
            n == b@.len(),
            i <= n,
            forall|j: int| 0 <= j < i ==> a@[j] == b@[j],
        decreases n - i,
    {
        if a.get_char(i) != b.get_char(i) {
            return false;
        }
        i += 1;
    }
    proof {
        assert(a@ =~= b@);
    }
    true
}

/// Whether a response header may be relayed to the client: everything
/// but the `host` and `connection` headers.
pub fn forwardable_header(name: &str) -> (forward: bool)
    ensures
        forward == (name@ != "host"@ && name@ != "connection"@),
{
    !str_eq(name, "host") && !str_eq(name, "connection")
}

} // verus!
