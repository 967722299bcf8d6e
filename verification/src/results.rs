//! Sequences of results, of which the first failure counts.

use vstd::prelude::*;

verus! {

/// Every result is a success.
pub open spec fn all_ok<T, E>(results: Seq<Result<T, E>>) -> bool {
    forall|i: int| 0 <= i < results.len() ==> #[trigger] results[i] is Ok
}

/// The result at `i` is a failure, and every result before it is a success.
pub open spec fn is_first_failure<T, E>(results: Seq<Result<T, E>>, i: int) -> bool {
    &&& 0 <= i < results.len()
    &&& results[i] is Err
    &&& forall|j: int| 0 <= j < i ==> #[trigger] results[j] is Ok
}

/// The index of the first failure, where there is one.
pub open spec fn first_failure<T, E>(results: Seq<Result<T, E>>) -> int {
    choose|i: int| is_first_failure(results, i)
}

/// The values of the successes.
pub open spec fn values<T, E>(results: Seq<Result<T, E>>) -> Seq<T> {
    results.map_values(|result: Result<T, E>| result->Ok_0)
}

/// All the values where every result is a success, and else the error of the
/// first failure.
pub open spec fn collected<T, E>(results: Seq<Result<T, E>>) -> Result<Seq<T>, E> {
    if all_ok(results) {
        Ok(values(results))
    } else {
        Err(results[first_failure(results)]->Err_0)
    }
}

/// A sequence of results has at most one first failure, and where it has one
/// its error is what the sequence collects to.
pub proof fn lemma_first_failure<T, E>(results: Seq<Result<T, E>>, i: int)
    requires
        is_first_failure(results, i),
    ensures
        !all_ok(results),
        first_failure(results) == i,
        collected(results) == Err::<Seq<T>, E>(results[i]->Err_0),
{
    let k = first_failure(results);
    assert(is_first_failure(results, k));
    if k < i {
        assert(results[k] is Ok);
    } else if i < k {
        assert(results[i] is Ok);
    }
}

/// Where the result at `k` is a failure, the sequence has a first failure.
pub proof fn lemma_failure_has_first<T, E>(results: Seq<Result<T, E>>, k: int)
    requires
        0 <= k < results.len(),
        results[k] is Err,
    ensures
        is_first_failure(results, first_failure(results)),
        first_failure(results) <= k,
    decreases k,
{
    if forall|j: int| 0 <= j < k ==> #[trigger] results[j] is Ok {
        assert(is_first_failure(results, k));
        lemma_first_failure(results, k);
    } else {
        let j = choose|j: int| 0 <= j < k && !(#[trigger] results[j] is Ok);
        lemma_failure_has_first(results, j);
    }
}

/// A sequence collects to an error exactly where some result is a failure,
/// and then to the error of the first of them.
pub proof fn lemma_collected_error<T, E>(results: Seq<Result<T, E>>)
    requires
        collected(results) is Err,
    ensures
        is_first_failure(results, first_failure(results)),
        collected(results) == Err::<Seq<T>, E>(results[first_failure(results)]->Err_0),
{
    let k = choose|k: int| 0 <= k < results.len() && !(#[trigger] results[k] is Ok);
    lemma_failure_has_first(results, k);
}

} // verus!
