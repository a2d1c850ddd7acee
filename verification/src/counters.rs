//! Aggregate counter arithmetic.
//!
//! The store keeps two running totals — number of files and cumulative
//! byte size — each as a fixed-width encoded record.  An increment is
//! an atomic read-modify-write: the step function below is handed the
//! current encoded value and produces the next one, and the store
//! installs it only if no concurrent writer got in between, retrying
//! otherwise.  Because every applied step reads the value it replaces,
//! no update is ever lost; the laws at the end state the resulting
//! arithmetic exactly, for every interleaving of concurrent callers.

use vstd::bytes::spec_u64_from_le_bytes;
use vstd::bytes::u64_from_le_bytes;
use vstd::prelude::*;
use vstd::seq_lib::group_seq_properties;

use crate::codec::encode_counter;
use crate::codec::spec_counter_bytes;

verus! {

/// What one compare-and-update step makes of the current encoded
/// counter: adds `add` and re-encodes.  A missing record, a record of
/// the wrong width, and an addition that would overflow all leave the
/// counter untouched (`None` means "install nothing").
pub open spec fn spec_next_counter(cur: Option<Seq<u8>>, add: u64) -> Option<Seq<u8>> {
    match cur {
        Option::None => None,
        Option::Some(bytes) => if bytes.len() != 8 {
            None
        } else {
            let n = spec_u64_from_le_bytes(bytes);
            if n + add > u64::MAX {
                None
            } else {
                Some(spec_counter_bytes((n + add) as u64))
            }
        },
    }
}

/// The step function handed to the store's atomic fetch-and-update:
/// decode the current record, add `add`, re-encode.
pub fn next_counter(cur: Option<&[u8]>, add: u64) -> (next: Option<Vec<u8>>)
    ensures
        match cur {
            Option::None => next is None,
            Option::Some(bytes) => {
                &&& next is Some <==> spec_next_counter(Some(bytes@), add) is Some
                &&& next is Some ==> next->0@ == spec_next_counter(Some(bytes@), add)->0
            },
        },
{
    match cur {
        None => None,
        Some(bytes) => {
            if bytes.len() != 8 {
                None
            } else {
                let n = u64_from_le_bytes(bytes);
                if add <= u64::MAX - n {
                    Some(encode_counter(n + add))
                } else {
                    None
                }
            }
        },
    }
}

/// One applied step is exactly one addition: handed the record of `n`,
/// the step installs the record of `n + add`, nothing else.
pub proof fn lemma_counter_step_adds(n: u64, add: u64)
    requires
        n + add <= u64::MAX,
    ensures
        spec_next_counter(Some(spec_counter_bytes(n)), add) == Some(
            spec_counter_bytes((n + add) as u64),
        ),
{
    crate::codec::lemma_counter_roundtrip(n);
}

/// The sum of a batch of per-call byte sizes.
pub open spec fn sum_sizes(sizes: Seq<u64>) -> int
    decreases sizes.len(),
{
    if sizes.len() == 0 {
        0
    } else {
        sizes.first() + sum_sizes(sizes.drop_first())
    }
}

/// The totals after running one `+1 file, +size bytes` increment for
/// each entry of `sizes`, in that order, starting from `files` and
/// `bytes`.
pub open spec fn totals_after(sizes: Seq<u64>, files: int, bytes: int) -> (int, int)
    decreases sizes.len(),
{
    if sizes.len() == 0 {
        (files, bytes)
    } else {
        totals_after(sizes.drop_first(), files + 1, bytes + sizes.first())
    }
}

/// Running one increment per entry adds exactly one file per call and
/// exactly the sum of the sizes, whatever the starting totals.
pub proof fn lemma_increments_accumulate(sizes: Seq<u64>, files: int, bytes: int)
    ensures
        totals_after(sizes, files, bytes) == (files + sizes.len(), bytes + sum_sizes(sizes)),
    decreases sizes.len(),
{
    if sizes.len() > 0 {
        lemma_increments_accumulate(sizes.drop_first(), files + 1, bytes + sizes.first());
    }
}

proof fn lemma_sum_remove(sizes: Seq<u64>, i: int)
    requires
        0 <= i < sizes.len(),
    ensures
        sum_sizes(sizes) == sum_sizes(sizes.remove(i)) + sizes[i],
    decreases sizes.len(),
{
    if i == 0 {
        assert(sizes.remove(0) =~= sizes.drop_first());
    } else {
        let d = sizes.drop_first();
        lemma_sum_remove(d, i - 1);
        assert(sizes.remove(i).drop_first() =~= d.remove(i - 1));
        assert(sizes.remove(i).first() == sizes.first());
        assert(sum_sizes(sizes.remove(i)) == sizes.first() + sum_sizes(d.remove(i - 1)));
    }
}

/// The sum of the sizes does not depend on the order the calls landed
/// in: any two interleavings of the same batch sum alike.
pub proof fn lemma_sum_permutation(a: Seq<u64>, b: Seq<u64>)
    requires
        a.to_multiset() == b.to_multiset(),
    ensures
        sum_sizes(a) == sum_sizes(b),
    decreases a.len(),
{
    broadcast use group_seq_properties;

    a.to_multiset_ensures();
    b.to_multiset_ensures();
    if a.len() == 0 {
        assert(b.to_multiset().len() == 0);
    } else {
        let x = a.first();
        assert(a.contains(x));
        assert(b.to_multiset().count(x) > 0);
        assert(b.contains(x));
        let i = choose|i: int| 0 <= i < b.len() && b[i] == x;
        assert(a.drop_first() =~= a.remove(0));
        assert(a.remove(0).to_multiset() == a.to_multiset().remove(x));
        assert(b.remove(i).to_multiset() == b.to_multiset().remove(x));
        lemma_sum_permutation(a.drop_first(), b.remove(i));
        lemma_sum_remove(b, i);
    }
}

/// Exactly-once arithmetic under concurrency: if `calls` is a batch of
/// concurrent `+1 file, +size bytes` increments and `order` is the
/// order their atomic updates actually landed in — any interleaving,
/// i.e. any reordering of the batch — the final totals are exactly the
/// starting totals plus one file per call and the batch's summed bytes.
/// No update is lost and none is applied twice.
pub proof fn lemma_totals_any_interleaving(calls: Seq<u64>, order: Seq<u64>, files: int, bytes: int)
    requires
        order.to_multiset() == calls.to_multiset(),
    ensures
        totals_after(order, files, bytes) == (files + calls.len(), bytes + sum_sizes(calls)),
{
    calls.to_multiset_ensures();
    order.to_multiset_ensures();
    lemma_increments_accumulate(order, files, bytes);
    lemma_sum_permutation(order, calls);
}

} // verus!
