//! The dispatcher: a state machine that walks a batch of queries strictly in
//! input order, one collaborator answer at a time.
//!
//! For the query at the current position the machine first wants the
//! authorization answer, then — only if access was granted — the index
//! catalog's answer, then — only if the index exists — the engine's outcome.
//! The first failure aborts the batch, attributed to the 0-based position of
//! the query that caused it; queries after that position are never started.
//!
//! The caller performs the outside work (permission lookup, catalog lookup,
//! query execution) and feeds each answer back through `on_authorization`,
//! `on_resolution` and `on_execution`.

use vstd::prelude::*;

use crate::error::BAD_REQUEST;
use crate::error::FORBIDDEN;
use crate::error::ResponseError;
use crate::error::remap_index_not_found;
use crate::search::SearchQuery;
use crate::search::SearchQueryWithIndex;
use crate::search::SearchResult;
use crate::search::SearchResultWithIndex;
use crate::search::SearchRules;
use crate::search::add_search_rules;
use crate::search::clone_clauses;

verus! {

/// What the dispatcher needs next for the query at the current position.
#[derive(Debug)]
pub enum DispatchPhase {
    /// Waiting for the authorization collaborator's verdict.
    NeedAuthorization,
    /// Waiting for the index catalog to resolve the index identifier.
    NeedResolution,
    /// Waiting for the engine to execute the query.
    NeedExecution,
}

/// The dispatcher's state: the batch, the position being worked on, what is
/// needed next for it, and the results collected so far.
#[derive(Debug)]
pub struct Dispatcher {
    pub queries: Vec<SearchQueryWithIndex>,
    pub position: usize,
    pub phase: DispatchPhase,
    pub results: Vec<SearchResultWithIndex>,
}

/// The filter a query runs with once its index's scoping rules are applied:
/// the query's own conjunction, narrowed by every scoping clause.
pub open spec fn scoped_filter(own: Seq<String>, rules: Option<&SearchRules>) -> Seq<String> {
    match rules {
        Option::Some(r) => own + r@,
        Option::None => own,
    }
}

impl Dispatcher {
    /// The machine is consistent: one collected result per completed
    /// position, each recorded under the index its query targeted.
    pub open spec fn wf(self) -> bool {
        &&& self.position <= self.queries@.len()
        &&& self.results@.len() == self.position
        &&& (forall|k: int|
            0 <= k < self.position ==> self.results@[k].index_uid == self.queries@[k].index_uid)
        &&& (self.position == self.queries@.len() ==> self.phase is NeedAuthorization)
    }

    /// Starts a batch: no query processed yet, the first one (if any)
    /// awaiting authorization.
    pub fn begin(queries: Vec<SearchQueryWithIndex>) -> (d: Dispatcher)
        ensures
            d.wf(),
            d.queries == queries,
            d.position == 0,
            d.phase is NeedAuthorization,
            d.results@ == Seq::<SearchResultWithIndex>::empty(),
    {
        let d = Dispatcher {
            queries,
            position: 0,
            phase: DispatchPhase::NeedAuthorization,
            results: Vec::new(),
        };
        proof {
            assert(d.results@ =~= Seq::<SearchResultWithIndex>::empty());
        }
        d
    }

    /// Whether every query of the batch has completed.
    pub fn is_done(&self) -> (r: bool)
        ensures
            r == (self.position == self.queries@.len()),
    {
        self.position == self.queries.len()
    }

    /// The index identifier of the query at the current position: what the
    /// caller hands to the authorization and catalog collaborators.
    pub fn current_index_uid(&self) -> (r: &String)
        requires
            self.position < self.queries@.len(),
        ensures
            *r == self.queries@[self.position as int].index_uid,
    {
        &self.queries[self.position].index_uid
    }

    /// Feeds the authorization collaborator's verdict for the query at the
    /// current position, together with the scoping rules it supplies.
    ///
    /// A denial fails the whole batch at once, attributed to this position,
    /// before the index is ever resolved or the query executed: the machine
    /// does not advance and never asks for anything further about this index,
    /// so the denial reveals nothing about whether the index even exists.
    /// A grant hands back the query to execute, its filter narrowed by the
    /// scoping rules.
    pub fn on_authorization(&mut self, authorized: bool, rules: Option<&SearchRules>) -> (r: Result<
        SearchQuery,
        (ResponseError, usize),
    >)
        requires
            old(self).wf(),
            old(self).phase is NeedAuthorization,
            old(self).position < old(self).queries@.len(),
        ensures
            final(self).wf(),
            final(self).queries == old(self).queries,
            final(self).position == old(self).position,
            final(self).results == old(self).results,
            r is Ok <==> authorized,
            !authorized ==> {
                &&& final(self).phase is NeedAuthorization
                &&& r->Err_0.1 == old(self).position
                &&& r->Err_0.0.code == FORBIDDEN
                &&& r->Err_0.0.message@ == "The provided API key is invalid."@
            },
            authorized ==> {
                let q = old(self).queries@[old(self).position as int];
                &&& final(self).phase is NeedResolution
                &&& r->Ok_0.filter@ == scoped_filter(q.filter@, rules)
                &&& r->Ok_0.limit == q.limit
                &&& r->Ok_0.hits_per_page == q.hits_per_page
            },
    {
        if !authorized {
            return Err((ResponseError::invalid_token(), self.position));
        }
        let q = &self.queries[self.position];
        let mut query = SearchQuery {
            filter: clone_clauses(&q.filter),
            limit: q.limit,
            hits_per_page: q.hits_per_page,
        };
        if let Some(r) = rules {
            add_search_rules(&mut query, r);
        }
        self.phase = DispatchPhase::NeedResolution;
        Ok(query)
    }

    /// Feeds the index catalog's answer for the current position. A missing
    /// index fails the batch attributed to this position, reclassified as a
    /// generic client error: the identifier came from the request body, not
    /// from the URL path, so it must not surface as a path-level "not found".
    pub fn on_resolution(&mut self, resolution: Result<(), ResponseError>) -> (r: Result<
        (),
        (ResponseError, usize),
    >)
        requires
            old(self).wf(),
            old(self).phase is NeedResolution,
        ensures
            final(self).wf(),
            final(self).queries == old(self).queries,
            final(self).position == old(self).position,
            final(self).results == old(self).results,
            r is Ok <==> resolution is Ok,
            resolution is Ok ==> final(self).phase is NeedExecution,
            resolution is Err ==> {
                &&& final(self).phase is NeedResolution
                &&& r->Err_0.1 == old(self).position
                &&& r->Err_0.0.code == BAD_REQUEST
                &&& r->Err_0.0.message == resolution->Err_0.message
            },
    {
        proof {
            assert(self.position < self.queries@.len());
        }
        match resolution {
            Ok(_) => {
                self.phase = DispatchPhase::NeedExecution;
                Ok(())
            },
            Err(e) => Err((remap_index_not_found(e), self.position)),
        }
    }

    /// Feeds the engine's outcome for the current position. Success records
    /// the hit list under the index it came from and advances to the next
    /// query; failure aborts the batch attributed to this position, the
    /// engine's own classification passed through untouched.
    pub fn on_execution(&mut self, outcome: Result<SearchResult, ResponseError>) -> (r: Result<
        (),
        (ResponseError, usize),
    >)
        requires
            old(self).wf(),
            old(self).phase is NeedExecution,
        ensures
            final(self).wf(),
            final(self).queries == old(self).queries,
            r is Ok <==> outcome is Ok,
            outcome is Ok ==> {
                &&& final(self).position == old(self).position + 1
                &&& final(self).phase is NeedAuthorization
                &&& final(self).results@.len() == old(self).results@.len() + 1
                &&& final(self).results@.subrange(0, old(self).results@.len() as int) == old(
                    self,
                ).results@
                &&& final(self).results@.last().index_uid == old(self).queries@[old(
                    self,
                ).position as int].index_uid
                &&& final(self).results@.last().result == outcome->Ok_0
            },
            outcome is Err ==> {
                &&& final(self).position == old(self).position
                &&& final(self).phase is NeedExecution
                &&& final(self).results == old(self).results
                &&& r->Err_0.1 == old(self).position
                &&& r->Err_0.0 == outcome->Err_0
            },
    {
        proof {
            assert(self.position < self.queries@.len());
        }
        match outcome {
            Ok(result) => {
                let n = self.queries.len();
                let index_uid = self.queries[self.position].index_uid.clone();
                self.results.push(SearchResultWithIndex { index_uid, result });
                self.position = self.position + 1;
                self.phase = DispatchPhase::NeedAuthorization;
                proof {
                    assert(self.results@.subrange(0, old(self).results@.len() as int) =~= old(
                        self,
                    ).results@);
                }
                Ok(())
            },
            Err(e) => Err((e, self.position)),
        }
    }

    /// Hands out the collected results once every query has completed: one
    /// per query, in input order, each under the index it targeted.
    pub fn into_results(self) -> (r: Vec<SearchResultWithIndex>)
        requires
            self.wf(),
            self.position == self.queries@.len(),
        ensures
            r == self.results,
            r@.len() == self.queries@.len(),
            forall|k: int| 0 <= k < r@.len() ==> r@[k].index_uid == self.queries@[k].index_uid,
    {
        self.results
    }
}

/// The answers the three collaborators would give for one query: the
/// authorization verdict with its scoping rules, the catalog's resolution,
/// and the engine's outcome.
#[derive(Debug)]
pub struct QueryScript {
    pub authorized: bool,
    pub rules: Option<SearchRules>,
    pub resolution: Result<(), ResponseError>,
    pub execution: Result<SearchResult, ResponseError>,
}

/// Whether the query with these collaborator answers fails.
pub open spec fn script_fails(s: QueryScript) -> bool {
    !s.authorized || s.resolution is Err || s.execution is Err
}

/// The status classification of the first thing that goes wrong for a query
/// with these collaborator answers.
pub open spec fn script_error_code(s: QueryScript) -> u16 {
    if !s.authorized {
        FORBIDDEN
    } else if s.resolution is Err {
        BAD_REQUEST
    } else {
        s.execution->Err_0.code
    }
}

/// The message of the first thing that goes wrong for a query with these
/// collaborator answers.
pub open spec fn script_error_message(s: QueryScript) -> Seq<char> {
    if !s.authorized {
        "The provided API key is invalid."@
    } else if s.resolution is Err {
        s.resolution->Err_0.message@
    } else {
        s.execution->Err_0.message@
    }
}

/// Runs a whole batch against collaborators whose answers are given up
/// front, one `QueryScript` per query.
///
/// The batch succeeds exactly when no query fails; the results then come one
/// per query, in input order, each hit list exactly what the engine returned
/// for that position, under the index the query targeted. Otherwise the
/// outcome is the error of the first failing position, paired with that
/// position; nothing is reported for any later position.
pub fn run_dispatch(queries: Vec<SearchQueryWithIndex>, script: &Vec<QueryScript>) -> (r: Result<
    Vec<SearchResultWithIndex>,
    (ResponseError, usize),
>)
    requires
        script@.len() == queries@.len(),
    ensures
        (r is Ok) <==> (forall|i: int| 0 <= i < script@.len() ==> !script_fails(script@[i])),
        r is Ok ==> {
            &&& r->Ok_0@.len() == queries@.len()
            &&& (forall|i: int|
                0 <= i < queries@.len() ==> {
                    &&& (#[trigger] r->Ok_0@[i]).index_uid == queries@[i].index_uid
                    &&& r->Ok_0@[i].result.hits@ == script@[i].execution->Ok_0.hits@
                })
        },
        r is Err ==> {
            let pos = r->Err_0.1 as int;
            &&& 0 <= pos < script@.len()
            &&& script_fails(script@[pos])
            &&& (forall|i: int| 0 <= i < pos ==> !script_fails(script@[i]))
            &&& r->Err_0.0.code == script_error_code(script@[pos])
            &&& r->Err_0.0.message@ == script_error_message(script@[pos])
        },
{
    let ghost qs = queries@;
    let mut d = Dispatcher::begin(queries);
    let n = script.len();
    let mut pos: usize = 0;
    while pos < n
        invariant
            d.wf(),
            d.phase is NeedAuthorization,
            d.position == pos,
            pos <= n,
            d.queries@ == qs,
            qs.len() == n,
            script@.len() == n,
            forall|i: int| 0 <= i < pos ==> !script_fails(script@[i]),
            forall|i: int|
                0 <= i < pos ==> (#[trigger] d.results@[i]).result.hits@ == script@[i].execution->Ok_0.hits@,
        decreases n - pos,
    {
        let entry = &script[pos];
        let rules: Option<&SearchRules> = match &entry.rules {
            Some(r) => Some(r),
            None => None,
        };
        match d.on_authorization(entry.authorized, rules) {
            Ok(_query) => {},
            Err(e) => {
                return Err(e);
            },
        }
        let resolution: Result<(), ResponseError> = match &entry.resolution {
            Ok(_) => Ok(()),
            Err(e) => Err(e.duplicate()),
        };
        match d.on_resolution(resolution) {
            Ok(_) => {},
            Err(e) => {
                return Err(e);
            },
        }
        let execution: Result<SearchResult, ResponseError> = match &entry.execution {
            Ok(res) => Ok(res.duplicate()),
            Err(e) => Err(e.duplicate()),
        };
        match d.on_execution(execution) {
            Ok(_) => {},
            Err(e) => {
                return Err(e);
            },
        }
        pos = pos + 1;
    }
    Ok(d.into_results())
}

/// An authorization denial is decided before, and independently of, anything
/// the index catalog or the engine could have answered: two collaborator
/// behaviours that agree on the authorization verdicts up to a denied
/// position — whatever they would have answered about index resolution or
/// execution there — fail at the same position, with the same classification
/// and the same message. A denied caller therefore learns nothing about
/// whether the index exists.
pub proof fn lemma_denial_masks_index_state(s1: Seq<QueryScript>, s2: Seq<QueryScript>, pos: int)
    requires
        s1.len() == s2.len(),
        0 <= pos < s1.len(),
        forall|i: int| 0 <= i < pos ==> s1[i] == s2[i],
        s1[pos].authorized == s2[pos].authorized,
        !s1[pos].authorized,
        forall|i: int| 0 <= i < pos ==> !script_fails(s1[i]),
    ensures
        script_fails(s1[pos]),
        script_fails(s2[pos]),
        forall|i: int| 0 <= i < pos ==> !script_fails(s2[i]),
        script_error_code(s1[pos]) == script_error_code(s2[pos]),
        script_error_message(s1[pos]) == script_error_message(s2[pos]),
{
    assert(forall|i: int| 0 <= i < pos ==> !script_fails(s2[i])) by {
        assert(forall|i: int| 0 <= i < pos ==> s2[i] == s1[i]);
    }
}

} // verus!
