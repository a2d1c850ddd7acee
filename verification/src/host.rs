//! Restricted-host detection.
//!
//! A restricted host is a remote origin that requires a bearer credential
//! to fetch from (the chat platform's file host).  The check is a plain
//! substring test on the URL, and the pipeline runs it before opening any
//! network connection: a restricted URL without a credential is rejected
//! as a `BadRequest` with no fetch attempted.

use vstd::prelude::*;

use crate::errors::APIError;
use crate::errors::ErrorKind;

verus! {

/// `needle` occurs in `hay` starting at position `i`.
pub open spec fn matches_at(hay: Seq<char>, needle: Seq<char>, i: int) -> bool {
    &&& 0 <= i
    &&& i + needle.len() <= hay.len()
    &&& hay.subrange(i, i + needle.len() as int) == needle
}

/// `needle` occurs somewhere in `hay`.
pub open spec fn contains_seq(hay: Seq<char>, needle: Seq<char>) -> bool {
    exists|i: int| matches_at(hay, needle, i)
}

/// Substring test, character by character.
pub fn str_contains(hay: &str, needle: &str) -> (found: bool)
    ensures
        found == contains_seq(hay@, needle@),
{
    let n: usize = hay.unicode_len();
    let m: usize = needle.unicode_len();
    if m > n {
        assert(forall|i: int| !matches_at(hay@, needle@, i));
        return false;
    }
    if m == 0 {
        proof {
            assert(hay@.subrange(0, 0) =~= needle@);
            assert(matches_at(hay@, needle@, 0));
        }
        return true;
    }
    let mut i: usize = 0;
    while i <= n - m
        invariant
            1 <= m <= n,
            n == hay@.len(),
            m == needle@.len(),
            i <= n - m + 1,
            forall|k: int| 0 <= k < i ==> !matches_at(hay@, needle@, k),
        decreases n - m - i + 1,
    {
        let mut j: usize = 0;
        let mut mismatch: bool = false;
        while j < m
            invariant
                m <= n,
                n == hay@.len(),
                m == needle@.len(),
                i <= n - m,
                j <= m,
                !mismatch ==> forall|l: int| 0 <= l < j ==> hay@[i + l] == needle@[l],
                mismatch ==> !matches_at(hay@, needle@, i as int),
            decreases m - j,
        {
            if !mismatch {
                let hc = hay.get_char(i + j);
                let nc = needle.get_char(j);
                if hc != nc {
                    proof {
                        let s = hay@.subrange(i as int, i + needle@.len() as int);
                        assert(s == needle@ ==> s[j as int] == needle@[j as int]);
                        assert(s[j as int] == hay@[i + j]);
                    }
                    mismatch = true;
                }
            }
            j += 1;
        }
        if !mismatch {
            proof {
                assert(hay@.subrange(i as int, i + needle@.len() as int) =~= needle@);
                assert(matches_at(hay@, needle@, i as int));
            }
            return true;
        }
        i += 1;
    }
    proof {
        assert forall|k: int| !matches_at(hay@, needle@, k) by {
            if 0 <= k <= n - m {
                assert(!matches_at(hay@, needle@, k));
            }
        }
    }
    false
}

/// The URL points at a restricted host.
pub open spec fn spec_is_restricted_host(url: Seq<char>) -> bool {
    contains_seq(url, "files.slack.com"@)
}

/// Whether fetching `url` requires a bearer credential.
pub fn is_restricted_host(url: &str) -> (restricted: bool)
    ensures
        restricted == spec_is_restricted_host(url@),
{
    str_contains(url, "files.slack.com")
}

/// The credential gate run before any network call: a restricted-host URL
/// with no supplied credential fails as a `BadRequest`; every other
/// combination passes.
pub fn require_download_credential(url: &str, has_credential: bool) -> (r: Result<(), APIError>)
    ensures
        r is Ok <==> (has_credential || !spec_is_restricted_host(url@)),
        r is Err ==> r->Err_0.kind == ErrorKind::BadRequest,
{
    if is_restricted_host(url) && !has_credential {
        Err(APIError::bad_request("x-download-authorization is required to download Slack files!"))
    } else {
        Ok(())
    }
}

} // verus!
