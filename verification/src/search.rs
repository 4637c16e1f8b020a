//! Data model for single-index search queries and their ranked results.

use vstd::prelude::*;

verus! {

/// The parameters of one search, without the index it targets.
///
/// A filter is a conjunction of clauses; an empty conjunction leaves the
/// search unrestricted. Keeping the conjuncts separate lets the access
/// scoping rules add clauses without rewriting the ones the caller wrote.
#[derive(Debug)]
pub struct SearchQuery {
    pub filter: Vec<String>,
    pub limit: usize,
    pub hits_per_page: Option<usize>,
}

/// One entry of a batch: the query parameters plus the index they target.
#[derive(Debug)]
pub struct SearchQueryWithIndex {
    pub index_uid: String,
    pub filter: Vec<String>,
    pub limit: usize,
    pub hits_per_page: Option<usize>,
}

impl SearchQueryWithIndex {
    /// Splits the entry into the index it targets and the bare query.
    pub fn into_index_query(self) -> (r: (String, SearchQuery))
        ensures
            r.0 == self.index_uid,
            r.1.filter == self.filter,
            r.1.limit == self.limit,
            r.1.hits_per_page == self.hits_per_page,
    {
        let SearchQueryWithIndex { index_uid, filter, limit, hits_per_page } = self;
        (index_uid, SearchQuery { filter, limit, hits_per_page })
    }
}

/// One ranked result record: a consumer-defined payload and an optional
/// normalized ranking score (higher is better).
#[derive(Debug)]
pub struct SearchHit {
    pub document: String,
    pub ranking_score: Option<u64>,
}

impl SearchHit {
    /// An exact copy of the hit.
    pub fn duplicate(&self) -> (r: SearchHit)
        ensures
            r == *self,
    {
        SearchHit { document: self.document.clone(), ranking_score: self.ranking_score }
    }
}

/// The ranked hit list produced by executing one query.
#[derive(Debug)]
pub struct SearchResult {
    pub hits: Vec<SearchHit>,
}

impl SearchResult {
    /// An exact copy of the result.
    pub fn duplicate(&self) -> (r: SearchResult)
        ensures
            r.hits@ == self.hits@,
    {
        let mut hits: Vec<SearchHit> = Vec::new();
        let mut k: usize = 0;
        while k < self.hits.len()
            invariant
                k <= self.hits.len(),
                hits@ =~= self.hits@.subrange(0, k as int),
            decreases self.hits.len() - k,
        {
            hits.push(self.hits[k].duplicate());
            proof {
                assert(self.hits@.subrange(0, k + 1 as int) =~= self.hits@.subrange(
                    0,
                    k as int,
                ).push(self.hits@[k as int]));
            }
            k = k + 1;
        }
        proof {
            assert(self.hits@.subrange(0, self.hits@.len() as int) =~= self.hits@);
        }
        SearchResult { hits }
    }
}

/// An exact copy of a conjunction of filter clauses.
pub fn clone_clauses(v: &Vec<String>) -> (r: Vec<String>)
    ensures
        r@ == v@,
{
    let mut r: Vec<String> = Vec::new();
    let mut k: usize = 0;
    while k < v.len()
        invariant
            k <= v.len(),
            r@ =~= v@.subrange(0, k as int),
        decreases v.len() - k,
    {
        r.push(v[k].clone());
        proof {
            assert(v@.subrange(0, k + 1 as int) =~= v@.subrange(0, k as int).push(v@[k as int]));
        }
        k = k + 1;
    }
    proof {
        assert(v@.subrange(0, v@.len() as int) =~= v@);
    }
    r
}

/// A per-query result paired with the index that produced it.
#[derive(Debug)]
pub struct SearchResultWithIndex {
    pub index_uid: String,
    pub result: SearchResult,
}

/// One merged entry: a hit annotated with the index it came from.
#[derive(Debug)]
pub struct SearchHitWithIndex {
    pub index_uid: String,
    pub hit: SearchHit,
}

/// The scoping filter that the authorization collaborator attaches to an
/// index: a conjunction of clauses restricting what the caller may see.
pub type SearchRules = Vec<String>;

/// Narrows a query by the access-scoping rules of its target index: every
/// scoping clause is appended to the query's own conjunction, so the query's
/// filter is only ever restricted, never widened, and every clause the caller
/// wrote survives unchanged.
pub fn add_search_rules(query: &mut SearchQuery, rules: &SearchRules)
    ensures
        final(query).filter@ == old(query).filter@ + rules@,
        final(query).limit == old(query).limit,
        final(query).hits_per_page == old(query).hits_per_page,
{
    let mut k: usize = 0;
    while k < rules.len()
        invariant
            k <= rules.len(),
            query.filter@ == old(query).filter@ + rules@.subrange(0, k as int),
            query.limit == old(query).limit,
            query.hits_per_page == old(query).hits_per_page,
        decreases rules.len() - k,
    {
        let clause: String = rules[k].clone();
        query.filter.push(clause);
        proof {
            assert(rules@.subrange(0, k + 1 as int) =~= rules@.subrange(0, k as int).push(
                rules@[k as int],
            ));
        }
        k = k + 1;
    }
    proof {
        assert(rules@.subrange(0, rules@.len() as int) =~= rules@);
    }
}

} // verus!
