//! Batch aggregation: fail-fast, all-or-nothing.
//!
//! A batch upload runs one independent task per URL; once every task
//! has settled, its outcomes are aggregated here.  If any task failed,
//! the batch as a whole fails with the first error in task order and
//! the caller receives no partial list — though the side effects of
//! tasks that already succeeded (stored objects, published metadata)
//! remain in place, by design, with no compensating rollback.  The
//! three response shapes the API offers are projections of one
//! aggregated result list, not separate pipelines.

use vstd::prelude::*;

use crate::errors::APIError;
use crate::records::UploadResult;

verus! {

/// Aggregates the settled outcomes of a batch.  Returns the full
/// result list, in task order, exactly when every task succeeded;
/// otherwise returns the first error and no results at all.
pub fn collect_batch(outcomes: Vec<Result<UploadResult, APIError>>) -> (r: Result<
    Vec<UploadResult>,
    APIError,
>)
    ensures
        r is Ok <==> (forall|i: int| 0 <= i < outcomes@.len() ==> outcomes@[i] is Ok),
        r is Ok ==> {
            let results = r->Ok_0;
            &&& results@.len() == outcomes@.len()
            &&& forall|i: int| 0 <= i < outcomes@.len() ==> results@[i] == outcomes@[i]->Ok_0
        },
        r is Err ==> exists|i: int|
            {
                &&& 0 <= i < outcomes@.len()
                &&& outcomes@[i] is Err
                &&& r->Err_0 == outcomes@[i]->Err_0
                &&& forall|j: int| 0 <= j < i ==> outcomes@[j] is Ok
            },
{
    let ghost orig = outcomes@;
    let mut remaining = outcomes;
    let mut results: Vec<UploadResult> = Vec::new();
    while remaining.len() > 0
        invariant
            orig == outcomes@,
            results@.len() + remaining@.len() == orig.len(),
            remaining@ == orig.subrange(results@.len() as int, orig.len() as int),
            forall|i: int| 0 <= i < results@.len() ==> orig[i] is Ok,
            forall|i: int| 0 <= i < results@.len() ==> results@[i] == orig[i]->Ok_0,
        decreases remaining@.len(),
    {
        let ghost k = results@.len() as int;
        proof {
            assert(remaining@[0] == orig[k]);
        }
        let outcome = remaining.remove(0);
        proof {
            assert(outcome == orig[k]);
        }
        match outcome {
            Ok(result) => {
                results.push(result);
                proof {
                    assert(remaining@ =~= orig.subrange(
                        results@.len() as int,
                        orig.len() as int,
                    ));
                }
            },
            Err(error) => {
                proof {
                    assert(0 <= k < outcomes@.len());
                    assert(outcomes@[k] is Err);
                    assert(error == outcomes@[k]->Err_0);
                    assert(forall|j: int| 0 <= j < k ==> outcomes@[j] is Ok);
                    assert(exists|i: int|
                        {
                            &&& 0 <= i < outcomes@.len()
                            &&& outcomes@[i] is Err
                            &&& error == outcomes@[i]->Err_0
                            &&& forall|j: int| 0 <= j < i ==> outcomes@[j] is Ok
                        });
                }
                return Err(error);
            },
        }
    }
    Ok(results)
}

/// The plain list of deployed URLs, one per result, in order.
pub fn project_deployed_urls(results: &Vec<UploadResult>) -> (urls: Vec<String>)
    ensures
        urls@.len() == results@.len(),
        forall|i: int| 0 <= i < results@.len() ==> urls@[i]@ == results@[i].deployed_url@,
{
    let mut urls: Vec<String> = Vec::new();
    let mut i: usize = 0;
    while i < results.len()
        invariant
            i <= results@.len(),
            urls@.len() == i,
            forall|j: int| 0 <= j < i ==> urls@[j]@ == results@[j].deployed_url@,
        decreases results@.len() - i,
    {
        urls.push(results[i].deployed_url.clone());
        i += 1;
    }
    urls
}

/// The identifier-to-URL mapping, one entry per result, in order.
pub fn project_file_urls(results: &Vec<UploadResult>) -> (pairs: Vec<(String, String)>)
    ensures
        pairs@.len() == results@.len(),
        forall|i: int|
            0 <= i < results@.len() ==> pairs@[i].0@ == results@[i].file@ && pairs@[i].1@
                == results@[i].deployed_url@,
{
    let mut pairs: Vec<(String, String)> = Vec::new();
    let mut i: usize = 0;
    while i < results.len()
        invariant
            i <= results@.len(),
            pairs@.len() == i,
            forall|j: int|
                0 <= j < i ==> pairs@[j].0@ == results@[j].file@ && pairs@[j].1@
                    == results@[j].deployed_url@,
        decreases results@.len() - i,
    {
        pairs.push((results[i].file.clone(), results[i].deployed_url.clone()));
        i += 1;
    }
    pairs
}

} // verus!
