//! The multi-search request: an ordered batch of per-index queries, an
//! optional merge strategy, and the response that answers it.

use vstd::prelude::*;

use crate::dispatch::QueryScript;
use crate::dispatch::run_dispatch;
use crate::dispatch::script_error_code;
use crate::dispatch::script_error_message;
use crate::dispatch::script_fails;
use crate::error::NOT_IMPLEMENTED;
use crate::error::ResponseError;
use crate::error::attribute_position;
use crate::error::position_prefix;
use crate::merge::all_hits_scored;
use crate::merge::emitted_dominate_rest;
use crate::merge::hits_scored;
use crate::merge::is_merge_trace;
use crate::merge::merge_by_normalized_score;
use crate::merge::merged_sorted_desc;
use crate::merge::sorted_desc;
use crate::merge::sources_sorted;
use crate::merge::total_hits;
use crate::search::SearchHitWithIndex;
use crate::search::SearchQueryWithIndex;
use crate::search::SearchResultWithIndex;

verus! {

/// How the per-query results of one batch are to be combined, fixed at
/// request time. The default is to leave them unmerged.
#[derive(Debug, Clone, Copy, PartialEq, Eq, Default)]
pub enum MergeStrategy {
    /// Hand the per-query results back as they are, one list per query.
    #[default]
    NoMerge,
    /// Interleave all results into one list, by descending normalized score.
    ByNormalizedScore,
    /// Reserved: merging on full score details is not implemented, and
    /// selecting it fails rather than falling back to anything else.
    ByScoreDetails,
}

/// One batch request: the queries in submission order, and the strategy for
/// combining their results.
#[derive(Debug)]
pub struct SearchQueries {
    pub queries: Vec<SearchQueryWithIndex>,
    pub merge_strategy: MergeStrategy,
}

/// One batch response: the per-query results in query order and, only when a
/// merge was requested, the merged list.
#[derive(Debug)]
pub struct SearchResults {
    pub aggregate_hits: Option<Vec<SearchHitWithIndex>>,
    pub results: Vec<SearchResultWithIndex>,
}

/// The most hits one query could ask for: its page size when set, else its
/// limit.
pub open spec fn query_max_hits(q: SearchQueryWithIndex) -> usize {
    match q.hits_per_page {
        Option::Some(h) => h,
        Option::None => q.limit,
    }
}

/// The bound on the merged output: the largest `query_max_hits` over the
/// batch, so that merging never yields more entries than the largest single
/// query could have.
pub open spec fn spec_max_hits(qs: Seq<SearchQueryWithIndex>) -> int
    decreases qs.len(),
{
    if qs.len() == 0 {
        0
    } else {
        let rest = spec_max_hits(qs.drop_last());
        if query_max_hits(qs.last()) >= rest {
            query_max_hits(qs.last()) as int
        } else {
            rest
        }
    }
}

/// The maximum, over all queries of the batch, of the page size if set and
/// the limit otherwise.
pub fn max_hits_of(queries: &Vec<SearchQueryWithIndex>) -> (r: usize)
    requires
        queries@.len() > 0,
    ensures
        r == spec_max_hits(queries@),
        forall|i: int| 0 <= i < queries@.len() ==> query_max_hits(#[trigger] queries@[i]) <= r,
        exists|i: int| 0 <= i < queries@.len() && query_max_hits(#[trigger] queries@[i]) == r,
{
    let n = queries.len();
    let mut r: usize = 0;
    let mut k: usize = 0;
    while k < n
        invariant
            k <= n,
            n == queries@.len(),
            r == spec_max_hits(queries@.subrange(0, k as int)),
            forall|i: int| 0 <= i < k ==> query_max_hits(#[trigger] queries@[i]) <= r,
            k > 0 ==> exists|i: int| 0 <= i < k && query_max_hits(#[trigger] queries@[i]) == r,
        decreases n - k,
    {
        let q = &queries[k];
        let candidate: usize = match q.hits_per_page {
            Some(h) => h,
            None => q.limit,
        };
        proof {
            assert(queries@.subrange(0, k + 1 as int).drop_last() =~= queries@.subrange(
                0,
                k as int,
            ));
            assert(queries@.subrange(0, k + 1 as int).last() == queries@[k as int]);
        }
        if candidate >= r {
            r = candidate;
        }
        k = k + 1;
    }
    proof {
        assert(queries@.subrange(0, queries@.len() as int) =~= queries@);
    }
    r
}

/// Combines the per-query results as the strategy asks, once every query has
/// succeeded: "no merge" omits the merged list entirely; merging by
/// normalized score yields at most `max_hits` entries, by descending score,
/// a valid interleaving of the sources; merging by score details is not
/// implemented and always fails with the not-implemented classification,
/// whatever the results.
pub fn aggregate_hits(
    strategy: MergeStrategy,
    search_results: &Vec<SearchResultWithIndex>,
    max_hits: usize,
) -> (r: Result<Option<Vec<SearchHitWithIndex>>, ResponseError>)
    requires
        strategy is ByNormalizedScore ==> all_hits_scored(search_results@) && sources_sorted(
            search_results@,
        ),
    ensures
        r is Err <==> strategy is ByScoreDetails,
        r is Err ==> {
            &&& r->Err_0.code == NOT_IMPLEMENTED
            &&& r->Err_0.message@ == "The requested merge strategy is not implemented."@
        },
        strategy is NoMerge ==> r->Ok_0 is None,
        strategy is ByNormalizedScore ==> {
            let merged = r->Ok_0->Some_0;
            &&& r->Ok_0 is Some
            &&& merged@.len() == if total_hits(search_results@) <= max_hits {
                total_hits(search_results@)
            } else {
                max_hits as int
            }
            &&& merged_sorted_desc(merged@)
            &&& exists|trace: Seq<(int, int)>|
                is_merge_trace(search_results@, merged@, trace) && emitted_dominate_rest(
                    search_results@,
                    merged@,
                    trace,
                )
        },
{
    match strategy {
        MergeStrategy::NoMerge => Ok(None),
        MergeStrategy::ByScoreDetails => Err(ResponseError::unimplemented_merge_strategy()),
        MergeStrategy::ByNormalizedScore => Ok(
            Some(merge_by_normalized_score(search_results, max_hits)),
        ),
    }
}

/// Every hit list the engine would return for this batch is a ranked list
/// whose hits all carry a score: what merging by normalized score assumes of
/// the upstream search capability.
pub open spec fn script_results_mergeable(script: Seq<QueryScript>) -> bool {
    forall|i: int|
        0 <= i < script.len() && (#[trigger] script[i]).execution is Ok ==> hits_scored(
            script[i].execution->Ok_0.hits@,
        ) && sorted_desc(script[i].execution->Ok_0.hits@)
}

/// Answers one whole batch against collaborators whose answers are given up
/// front, one `QueryScript` per query.
///
/// The queries run strictly in submission order; the first failure aborts
/// the batch and becomes the single returned error, its classification kept
/// and its message rewritten to name the 0-based position of the failing
/// query. When every query succeeds, the response carries the per-query
/// results in query order and — only when a merge was requested — the merged
/// list, bounded by the batch's `max_hits`; an unimplemented strategy then
/// fails with the not-implemented classification instead.
pub fn multi_search(params: SearchQueries, script: &Vec<QueryScript>) -> (r: Result<
    SearchResults,
    ResponseError,
>)
    requires
        script@.len() == params.queries@.len(),
        params.queries@.len() > 0,
        params.merge_strategy is ByNormalizedScore ==> script_results_mergeable(script@),
    ensures
        r is Ok ==> (forall|i: int| 0 <= i < script@.len() ==> !script_fails(script@[i]))
            && !(params.merge_strategy is ByScoreDetails),
        (forall|i: int| 0 <= i < script@.len() ==> !script_fails(script@[i])) ==> (r is Ok
            || (r is Err && r->Err_0.code == NOT_IMPLEMENTED && params.merge_strategy
            is ByScoreDetails)),
        r is Ok ==> {
            let out = r->Ok_0;
            &&& out.results@.len() == params.queries@.len()
            &&& (forall|i: int|
                0 <= i < params.queries@.len() ==> {
                    &&& (#[trigger] out.results@[i]).index_uid == params.queries@[i].index_uid
                    &&& out.results@[i].result.hits@ == script@[i].execution->Ok_0.hits@
                })
            &&& (params.merge_strategy is NoMerge ==> out.aggregate_hits is None)
            &&& (params.merge_strategy is ByNormalizedScore ==> {
                let merged = out.aggregate_hits->Some_0;
                &&& out.aggregate_hits is Some
                &&& merged@.len() == if total_hits(out.results@) <= spec_max_hits(params.queries@) {
                    total_hits(out.results@)
                } else {
                    spec_max_hits(params.queries@)
                }
                &&& merged_sorted_desc(merged@)
                &&& exists|trace: Seq<(int, int)>|
                    is_merge_trace(out.results@, merged@, trace) && emitted_dominate_rest(
                        out.results@,
                        merged@,
                        trace,
                    )
            })
        },
        (exists|i: int| 0 <= i < script@.len() && script_fails(#[trigger] script@[i])) ==> {
            let pos = choose|pos: int|
                0 <= pos < script@.len() && script_fails(script@[pos]) && (forall|i: int|
                    0 <= i < pos ==> !script_fails(script@[i]));
            &&& r is Err
            &&& r->Err_0.code == script_error_code(script@[pos])
            &&& r->Err_0.message@ == position_prefix(pos as nat) + script_error_message(
                script@[pos],
            )
        },
{
    let SearchQueries { queries, merge_strategy } = params;
    let max_hits = max_hits_of(&queries);
    let dispatched = run_dispatch(queries, script);
    let search_results = match dispatched {
        Ok(results) => results,
        Err((err, position)) => {
            let attributed = attribute_position(err, position);
            proof {
                let pos = choose|pos: int|
                    0 <= pos < script@.len() && script_fails(script@[pos]) && (forall|i: int|
                        0 <= i < pos ==> !script_fails(script@[i]));
                assert(pos == position as int);
            }
            return Err(attributed);
        },
    };
    let merged_hits = match aggregate_hits(merge_strategy, &search_results, max_hits) {
        Ok(merged) => merged,
        Err(err) => {
            return Err(err);
        },
    };
    Ok(SearchResults { aggregate_hits: merged_hits, results: search_results })
}

} // verus!
