//! Merging several ranked hit lists into one, by descending score.
//!
//! Each per-query result is consumed through a cursor that walks it front to
//! back. Each round picks, among the sources that still have an unconsumed
//! hit, one whose next hit has the maximum score (the earliest such source,
//! so ties break deterministically on query order), emits that hit annotated
//! with its index, and advances that cursor — up to `max_hits` emitted
//! entries, or until every source is exhausted.

use vstd::prelude::*;

use crate::search::SearchHit;
use crate::search::SearchHitWithIndex;
use crate::search::SearchResultWithIndex;

verus! {

/// The score a hit ranks under; unscored hits rank lowest.
pub open spec fn hit_score(h: SearchHit) -> u64 {
    match h.ranking_score {
        Option::Some(s) => s,
        Option::None => 0,
    }
}

/// Every hit of the list carries a score.
pub open spec fn hits_scored(hits: Seq<SearchHit>) -> bool {
    forall|p: int| 0 <= p < hits.len() ==> (#[trigger] hits[p]).ranking_score is Some
}

/// Every hit of every result carries a score. Merging by score demands this:
/// a missing score is an upstream contract breach, never defaulted over.
pub open spec fn all_hits_scored(rs: Seq<SearchResultWithIndex>) -> bool {
    forall|j: int| 0 <= j < rs.len() ==> hits_scored((#[trigger] rs[j]).result.hits@)
}

/// The hits are ordered by descending score.
pub open spec fn sorted_desc(hits: Seq<SearchHit>) -> bool {
    forall|a: int, b: int|
        #![trigger hits[a], hits[b]]
        0 <= a < b < hits.len() ==> hit_score(hits[a]) >= hit_score(hits[b])
}

/// Every source is a ranked list: its hits come in descending score order.
pub open spec fn sources_sorted(rs: Seq<SearchResultWithIndex>) -> bool {
    forall|j: int| 0 <= j < rs.len() ==> sorted_desc((#[trigger] rs[j]).result.hits@)
}

/// The merged entries are ordered by descending score.
pub open spec fn merged_sorted_desc(out: Seq<SearchHitWithIndex>) -> bool {
    forall|a: int, b: int|
        #![trigger out[a], out[b]]
        0 <= a < b < out.len() ==> hit_score(out[a].hit) >= hit_score(out[b].hit)
}

/// How many hits all the sources hold together.
pub open spec fn total_hits(rs: Seq<SearchResultWithIndex>) -> int
    decreases rs.len(),
{
    if rs.len() == 0 {
        0
    } else {
        total_hits(rs.drop_last()) + rs.last().result.hits@.len()
    }
}

/// How many entries of `trace` consume from source `j`.
pub open spec fn consumed_from(trace: Seq<(int, int)>, j: int) -> int
    decreases trace.len(),
{
    if trace.len() == 0 {
        0
    } else {
        consumed_from(trace.drop_last(), j) + if trace.last().0 == j {
            1int
        } else {
            0int
        }
    }
}

/// `trace` certifies that `out` is a valid interleaving of the sources: its
/// k-th pair names the source and the position within that source of the
/// k-th merged entry. Every merged entry is a hit of its named source,
/// annotated with that source's index; every source is consumed front to
/// back, so no position is emitted twice and two entries from the same
/// source keep that source's own order.
pub open spec fn is_merge_trace(
    rs: Seq<SearchResultWithIndex>,
    out: Seq<SearchHitWithIndex>,
    trace: Seq<(int, int)>,
) -> bool {
    &&& trace.len() == out.len()
    &&& (forall|k: int|
        0 <= k < trace.len() ==> {
            let j = (#[trigger] trace[k]).0;
            let p = trace[k].1;
            &&& 0 <= j < rs.len()
            &&& 0 <= p < rs[j].result.hits@.len()
            &&& out[k].index_uid == rs[j].index_uid
            &&& out[k].hit == rs[j].result.hits@[p]
        })
    &&& (forall|k1: int, k2: int|
        #![trigger trace[k1], trace[k2]]
        0 <= k1 < k2 < trace.len() && trace[k1].0 == trace[k2].0 ==> trace[k1].1 < trace[k2].1)
    &&& (forall|k: int|
        0 <= k < trace.len() ==> (#[trigger] trace[k]).1 == consumed_from(
            trace.take(k),
            trace[k].0,
        ))
}

/// Nothing better was left behind: every merged entry scores at least as
/// high as every hit the trace leaves unconsumed, so the output is the top
/// of what the sources held.
pub open spec fn emitted_dominate_rest(
    rs: Seq<SearchResultWithIndex>,
    out: Seq<SearchHitWithIndex>,
    trace: Seq<(int, int)>,
) -> bool {
    forall|k: int, j: int, p: int|
        #![trigger out[k], rs[j].result.hits@[p]]
        0 <= k < out.len() && 0 <= j < rs.len() && consumed_from(trace, j) <= p
            < rs[j].result.hits@.len() ==> hit_score(out[k].hit) >= hit_score(
            rs[j].result.hits@[p],
        )
}

proof fn lemma_consumed_push(trace: Seq<(int, int)>, x: (int, int))
    ensures
        forall|l: int|
            #[trigger] consumed_from(trace.push(x), l) == consumed_from(trace, l) + if x.0 == l {
                1int
            } else {
                0int
            },
{
    assert(trace.push(x).drop_last() =~= trace);
}

/// How many hits the cursors have consumed altogether.
spec fn cursor_sum(cs: Seq<usize>) -> int
    decreases cs.len(),
{
    if cs.len() == 0 {
        0
    } else {
        cursor_sum(cs.drop_last()) + cs.last()
    }
}

proof fn lemma_cursor_sum_push(cs: Seq<usize>, x: usize)
    ensures
        cursor_sum(cs.push(x)) == cursor_sum(cs) + x,
{
    assert(cs.push(x).drop_last() =~= cs);
}

proof fn lemma_cursor_sum_update(cs: Seq<usize>, j: int, v: usize)
    requires
        0 <= j < cs.len(),
    ensures
        cursor_sum(cs.update(j, v)) == cursor_sum(cs) - cs[j] + v,
    decreases cs.len(),
{
    if j == cs.len() - 1 {
        assert(cs.update(j, v).drop_last() =~= cs.drop_last());
    } else {
        assert(cs.update(j, v).drop_last() =~= cs.drop_last().update(j, v));
        lemma_cursor_sum_update(cs.drop_last(), j, v);
    }
}

/// Cursors that sit inside their sources have consumed at most the total;
/// cursors that sit at the end of their sources have consumed all of it.
proof fn lemma_cursor_sum_total(cs: Seq<usize>, rs: Seq<SearchResultWithIndex>)
    requires
        cs.len() == rs.len(),
        forall|j: int| 0 <= j < cs.len() ==> cs[j] <= (#[trigger] rs[j]).result.hits@.len(),
    ensures
        cursor_sum(cs) <= total_hits(rs),
        (forall|j: int|
            0 <= j < cs.len() ==> cs[j] == (#[trigger] rs[j]).result.hits@.len()) ==> cursor_sum(
            cs,
        ) == total_hits(rs),
    decreases cs.len(),
{
    if cs.len() > 0 {
        assert(forall|j: int|
            0 <= j < cs.drop_last().len() ==> cs.drop_last()[j] <= (#[trigger] rs.drop_last()[j]).result.hits@.len());
        lemma_cursor_sum_total(cs.drop_last(), rs.drop_last());
    }
}

/// Interleaves the per-query ranked hit lists into at most `max_hits`
/// entries, by descending score, each annotated with the index it came from.
///
/// The output holds exactly `max_hits` entries when the sources hold at
/// least that many hits together, and every hit of every source otherwise;
/// it is ordered by descending score; and a trace certifies that it is a
/// valid interleaving of the sources, each one consumed front to back.
pub fn merge_by_normalized_score(
    search_results: &Vec<SearchResultWithIndex>,
    max_hits: usize,
) -> (merged: Vec<SearchHitWithIndex>)
    requires
        all_hits_scored(search_results@),
        sources_sorted(search_results@),
    ensures
        merged@.len() == if total_hits(search_results@) <= max_hits {
            total_hits(search_results@)
        } else {
            max_hits as int
        },
        merged_sorted_desc(merged@),
        exists|trace: Seq<(int, int)>|
            is_merge_trace(search_results@, merged@, trace) && emitted_dominate_rest(
                search_results@,
                merged@,
                trace,
            ),
{
    let ghost rs = search_results@;
    let n = search_results.len();

    let mut cursors: Vec<usize> = Vec::new();
    while cursors.len() < n
        invariant
            cursors@.len() <= n,
            forall|j: int| 0 <= j < cursors@.len() ==> cursors@[j] == 0,
            cursor_sum(cursors@) == 0,
        decreases n - cursors@.len(),
    {
        proof {
            lemma_cursor_sum_push(cursors@, 0);
        }
        cursors.push(0);
    }

    let mut merged: Vec<SearchHitWithIndex> = Vec::new();
    let ghost mut trace: Seq<(int, int)> = Seq::empty();
    let mut emitted: usize = 0;

    while emitted < max_hits
        invariant_except_break
            emitted <= max_hits,
        invariant
            rs == search_results@,
            rs.len() == n,
            all_hits_scored(rs),
            sources_sorted(rs),
            cursors@.len() == n,
            forall|j: int| 0 <= j < n ==> cursors@[j] <= (#[trigger] rs[j]).result.hits@.len(),
            merged@.len() == emitted,
            cursor_sum(cursors@) == emitted,
            trace.len() == merged@.len(),
            forall|k: int|
                0 <= k < trace.len() ==> {
                    let j = (#[trigger] trace[k]).0;
                    let p = trace[k].1;
                    &&& 0 <= j < n
                    &&& 0 <= p < cursors@[j]
                    &&& merged@[k].index_uid == rs[j].index_uid
                    &&& merged@[k].hit == rs[j].result.hits@[p]
                },
            forall|k1: int, k2: int|
                #![trigger trace[k1], trace[k2]]
                0 <= k1 < k2 < trace.len() && trace[k1].0 == trace[k2].0 ==> trace[k1].1
                    < trace[k2].1,
            forall|j: int| #[trigger] consumed_from(trace, j) == if 0 <= j < n {
                cursors@[j] as int
            } else {
                0int
            },
            forall|k: int|
                0 <= k < trace.len() ==> (#[trigger] trace[k]).1 == consumed_from(
                    trace.take(k),
                    trace[k].0,
                ),
            merged_sorted_desc(merged@),
            forall|k: int, j: int, p: int|
                #![trigger merged@[k], rs[j].result.hits@[p]]
                0 <= k < merged@.len() && 0 <= j < n && cursors@[j] <= p
                    < rs[j].result.hits@.len() ==> hit_score(merged@[k].hit) >= hit_score(
                    rs[j].result.hits@[p],
                ),
        ensures
            emitted <= max_hits,
            merged@.len() == emitted,
            cursor_sum(cursors@) == emitted,
            cursors@.len() == n,
            forall|j: int| 0 <= j < n ==> cursors@[j] <= (#[trigger] rs[j]).result.hits@.len(),
            emitted == max_hits || (forall|j: int|
                0 <= j < n ==> cursors@[j] == (#[trigger] rs[j]).result.hits@.len()),
            merged_sorted_desc(merged@),
            is_merge_trace(rs, merged@, trace),
            emitted_dominate_rest(rs, merged@, trace),
        decreases max_hits - emitted,
    {
        let mut found = false;
        let mut best: usize = 0;
        let mut best_score: u64 = 0;
        let mut k: usize = 0;
        while k < n
            invariant
                rs == search_results@,
                rs.len() == n,
                all_hits_scored(rs),
                cursors@.len() == n,
                forall|j: int| 0 <= j < n ==> cursors@[j] <= (#[trigger] rs[j]).result.hits@.len(),
                k <= n,
                !found ==> (forall|l: int|
                    0 <= l < k ==> cursors@[l] >= (#[trigger] rs[l]).result.hits@.len()),
                found ==> {
                    &&& best < n
                    &&& (cursors@[best as int] as int) < rs[best as int].result.hits@.len()
                    &&& best_score == hit_score(
                        rs[best as int].result.hits@[cursors@[best as int] as int],
                    )
                },
                found ==> (forall|l: int|
                    0 <= l < k && cursors@[l] < (#[trigger] rs[l]).result.hits@.len() ==> hit_score(
                        rs[l].result.hits@[cursors@[l] as int],
                    ) <= best_score),
            decreases n - k,
        {
            let cur = cursors[k];
            if cur < search_results[k].result.hits.len() {
                proof {
                    assert(rs[k as int].result.hits@[cur as int].ranking_score is Some);
                }
                let s = search_results[k].result.hits[cur].ranking_score.unwrap();
                if !found || s > best_score {
                    found = true;
                    best = k;
                    best_score = s;
                }
            }
            k = k + 1;
        }
        if !found {
            break ;
        }
        let j = best;
        let p = cursors[j];
        // Binding the source's length bounds `p`, so advancing the cursor
        // below cannot overflow.
        let _source_len = search_results[j].result.hits.len();
        let hit = search_results[j].result.hits[p].duplicate();
        let index_uid = search_results[j].index_uid.clone();
        merged.push(SearchHitWithIndex { index_uid, hit });
        let ghost cs0 = cursors@;
        cursors[j] = p + 1;
        proof {
            lemma_cursor_sum_update(cs0, j as int, (p + 1) as usize);
            let t0 = trace;
            lemma_consumed_push(t0, (j as int, p as int));
            trace = t0.push((j as int, p as int));
            assert(trace.take(t0.len() as int) =~= t0);
            assert forall|k: int| 0 <= k < t0.len() implies #[trigger] trace.take(k) == t0.take(
                k,
            ) by {
                assert(trace.take(k) =~= t0.take(k));
            }
        }
        emitted = emitted + 1;
    }

    proof {
        lemma_cursor_sum_total(cursors@, rs);
    }
    merged
}

} // verus!
