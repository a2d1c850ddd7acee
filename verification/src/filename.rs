//! Display-filename derivation.
//!
//! The display filename of an uploaded URL is its final path segment —
//! the text after the last `/` — stripped of any query string, i.e. cut
//! at the first `?` that follows.  When that leaves nothing (the URL is
//! empty or ends in `/` or the segment starts with `?`), the filename
//! falls back to the literal `unknown`.

use vstd::prelude::*;

verus! {

/// The suffix of `s` after its last `/`; all of `s` when it has none.
pub open spec fn after_last_slash(s: Seq<char>) -> Seq<char>
    decreases s.len(),
{
    if s.len() == 0 {
        s
    } else if s.last() == '/' {
        Seq::empty()
    } else {
        after_last_slash(s.drop_last()).push(s.last())
    }
}

/// The prefix of `s` before its first `?`; all of `s` when it has none.
pub open spec fn before_first_question(s: Seq<char>) -> Seq<char>
    decreases s.len(),
{
    if s.len() == 0 {
        s
    } else if s.first() == '?' {
        Seq::empty()
    } else {
        seq![s.first()] + before_first_question(s.drop_first())
    }
}

/// The display filename derived from a URL.
pub open spec fn spec_display_filename(url: Seq<char>) -> Seq<char> {
    let name = before_first_question(after_last_slash(url));
    if name.len() == 0 {
        "unknown"@
    } else {
        name
    }
}

proof fn lemma_after_last_slash_at(s: Seq<char>, k: int)
    requires
        0 <= k < s.len(),
        s[k] == '/',
        forall|j: int| k < j < s.len() ==> s[j] != '/',
    ensures
        after_last_slash(s) == s.subrange(k + 1, s.len() as int),
    decreases s.len(),
{
    if k == s.len() - 1 {
        assert(s.last() == '/');
        assert(after_last_slash(s) =~= s.subrange(k + 1, s.len() as int));
    } else {
        assert(s[s.len() - 1] != '/');
        let d = s.drop_last();
        assert(forall|j: int| k < j < d.len() ==> d[j] == s[j]);
        lemma_after_last_slash_at(d, k);
        assert(d.subrange(k + 1, d.len() as int) =~= s.subrange(k + 1, s.len() - 1));
        assert(s.subrange(k + 1, s.len() - 1).push(s[s.len() - 1]) =~= s.subrange(
            k + 1,
            s.len() as int,
        ));
    }
}

proof fn lemma_after_last_slash_none(s: Seq<char>)
    requires
        forall|j: int| 0 <= j < s.len() ==> s[j] != '/',
    ensures
        after_last_slash(s) == s,
    decreases s.len(),
{
    if s.len() > 0 {
        assert(s[s.len() - 1] != '/');
        let d = s.drop_last();
        lemma_after_last_slash_none(d);
        assert(d.push(s.last()) =~= s);
    }
}

proof fn lemma_before_first_question_at(s: Seq<char>, q: int)
    requires
        0 <= q < s.len(),
        s[q] == '?',
        forall|k: int| 0 <= k < q ==> s[k] != '?',
    ensures
        before_first_question(s) == s.subrange(0, q),
    decreases s.len(),
{
    if q == 0 {
        assert(before_first_question(s) =~= s.subrange(0, 0));
    } else {
        assert(s[0] != '?');
        let d = s.drop_first();
        assert(d[q - 1] == '?');
        assert(forall|k: int| 0 <= k < q - 1 ==> d[k] == s[k + 1]);
        lemma_before_first_question_at(d, q - 1);
        assert(seq![s.first()] + d.subrange(0, q - 1) =~= s.subrange(0, q));
    }
}

proof fn lemma_before_first_question_none(s: Seq<char>)
    requires
        forall|k: int| 0 <= k < s.len() ==> s[k] != '?',
    ensures
        before_first_question(s) == s,
    decreases s.len(),
{
    if s.len() > 0 {
        assert(s[0] != '?');
        let d = s.drop_first();
        assert(forall|k: int| 0 <= k < d.len() ==> d[k] == s[k + 1]);
        lemma_before_first_question_none(d);
        assert(seq![s.first()] + d =~= s);
    }
}

/// Derives the display filename of `url`: the text after the last `/`,
/// cut at the first `?`, with `unknown` as the fallback when nothing is
/// left.
pub fn derive_filename(url: &str) -> (name: String)
    ensures
        name@ == spec_display_filename(url@),
{
    let n: usize = url.unicode_len();

    // Position right after the last `/` seen so far.
    let mut start: usize = 0;
    let mut i: usize = 0;
    while i < n
        invariant
            i <= n,
            n == url@.len(),
            start <= i,
            (start == 0 && forall|j: int| 0 <= j < i ==> url@[j] != '/') || (1 <= start <= i
                && url@[start - 1] == '/' && forall|j: int| start <= j < i ==> url@[j] != '/'),
        decreases n - i,
    {
        if url.get_char(i) == '/' {
            start = i + 1;
        }
        i += 1;
    }
    proof {
        if start == 0 {
            lemma_after_last_slash_none(url@);
            assert(url@.subrange(0, n as int) =~= url@);
        } else {
            lemma_after_last_slash_at(url@, start - 1);
        }
        assert(after_last_slash(url@) == url@.subrange(start as int, n as int));
    }

    // First `?` at or after `start`.
    let mut q: usize = start;
    while q < n && url.get_char(q) != '?'
        invariant
            n == url@.len(),
            start <= q <= n,
            forall|k: int| start <= k < q ==> url@[k] != '?',
        decreases n - q,
    {
        q += 1;
    }
    proof {
        let tail = url@.subrange(start as int, n as int);
        assert(forall|k: int| 0 <= k < tail.len() ==> tail[k] == url@[start + k]);
        if q < n {
            lemma_before_first_question_at(tail, q - start);
        } else {
            lemma_before_first_question_none(tail);
            assert(tail.subrange(0, tail.len() as int) =~= tail);
        }
        assert(tail.subrange(0, q - start) =~= url@.subrange(start as int, q as int));
        assert(before_first_question(after_last_slash(url@)) == url@.subrange(
            start as int,
            q as int,
        ));
    }

    if q == start {
        String::from_str("unknown")
    } else {
        let segment = url.substring_char(start, q);
        segment.to_owned()
    }
}

} // verus!
