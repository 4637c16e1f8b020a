use multi_search::dispatch::Dispatcher;
use multi_search::dispatch::QueryScript;
use multi_search::dispatch::run_dispatch;
use multi_search::error::BAD_REQUEST;
use multi_search::error::FORBIDDEN;
use multi_search::error::NOT_FOUND;
use multi_search::error::ResponseError;
use multi_search::search::SearchHit;
use multi_search::search::SearchQuery;
use multi_search::search::SearchQueryWithIndex;
use multi_search::search::SearchResult;
use multi_search::search::add_search_rules;

fn query(index_uid: &str) -> SearchQueryWithIndex {
    SearchQueryWithIndex {
        index_uid: index_uid.to_string(),
        filter: Vec::new(),
        limit: 20,
        hits_per_page: None,
    }
}

fn hits(scores: &[u64]) -> SearchResult {
    SearchResult {
        hits: scores
            .iter()
            .map(|s| SearchHit { document: format!("doc{s}"), ranking_score: Some(*s) })
            .collect(),
    }
}

fn ok_script(scores: &[u64]) -> QueryScript {
    QueryScript { authorized: true, rules: None, resolution: Ok(()), execution: Ok(hits(scores)) }
}

#[test]
fn batch_success_keeps_query_order() {
    let queries = vec![query("movies"), query("books"), query("games")];
    let script = vec![ok_script(&[90]), ok_script(&[80, 70]), ok_script(&[])];
    let results = run_dispatch(queries, &script).unwrap();
    assert_eq!(results.len(), 3);
    assert_eq!(results[0].index_uid, "movies");
    assert_eq!(results[1].index_uid, "books");
    assert_eq!(results[2].index_uid, "games");
    assert_eq!(results[0].result.hits.len(), 1);
    assert_eq!(results[1].result.hits.len(), 2);
    assert_eq!(results[1].result.hits[0].ranking_score, Some(80));
    assert!(results[2].result.hits.is_empty());
}

#[test]
fn first_failure_wins_and_aborts_the_batch() {
    let boom = ResponseError { code: 500, message: "engine failed".to_string() };
    let failing = QueryScript {
        authorized: true,
        rules: None,
        resolution: Ok(()),
        execution: Err(boom),
    };
    let also_bad = QueryScript {
        authorized: false,
        rules: None,
        resolution: Ok(()),
        execution: Ok(hits(&[10])),
    };
    let queries = vec![query("movies"), query("books"), query("games")];
    let script = vec![ok_script(&[90]), failing, also_bad];
    let (err, position) = run_dispatch(queries, &script).unwrap_err();
    assert_eq!(position, 1);
    assert_eq!(err.code, 500);
    assert_eq!(err.message, "engine failed");
}

#[test]
fn denial_is_decided_before_resolution_or_execution() {
    let queries = vec![query("secret")];
    let mut dispatcher = Dispatcher::begin(queries);
    let denied = dispatcher.on_authorization(false, None).unwrap_err();
    assert_eq!(denied.1, 0);
    assert_eq!(denied.0.code, FORBIDDEN);
    assert_eq!(denied.0.message, "The provided API key is invalid.");
    // The machine never advanced: nothing was resolved, nothing executed.
    assert!(!dispatcher.is_done());
    assert!(dispatcher.results.is_empty());
}

#[test]
fn denial_wins_over_poisoned_resolution_and_execution() {
    // Whatever the catalog or the engine would have answered at the denied
    // position, the caller sees only the denial.
    let poisoned = QueryScript {
        authorized: false,
        rules: None,
        resolution: Err(ResponseError { code: NOT_FOUND, message: "no such index".to_string() }),
        execution: Err(ResponseError { code: 500, message: "crash".to_string() }),
    };
    let queries = vec![query("movies"), query("books"), query("secret")];
    let script = vec![ok_script(&[90]), ok_script(&[80]), poisoned];
    let (err, position) = run_dispatch(queries, &script).unwrap_err();
    assert_eq!(position, 2);
    assert_eq!(err.code, FORBIDDEN);
    assert_eq!(err.message, "The provided API key is invalid.");
}

#[test]
fn missing_index_becomes_bad_request() {
    let missing = QueryScript {
        authorized: true,
        rules: None,
        resolution: Err(ResponseError {
            code: NOT_FOUND,
            message: "Index `nope` not found.".to_string(),
        }),
        execution: Ok(hits(&[10])),
    };
    let queries = vec![query("nope")];
    let script = vec![missing];
    let (err, position) = run_dispatch(queries, &script).unwrap_err();
    assert_eq!(position, 0);
    assert_eq!(err.code, BAD_REQUEST);
    assert_eq!(err.message, "Index `nope` not found.");
}

#[test]
fn scoping_rules_narrow_the_filter() {
    let mut q = SearchQuery {
        filter: vec!["color = red".to_string()],
        limit: 20,
        hits_per_page: None,
    };
    let rules = vec!["tenant = 42".to_string()];
    add_search_rules(&mut q, &rules);
    assert_eq!(q.filter, vec!["color = red".to_string(), "tenant = 42".to_string()]);
    assert_eq!(q.limit, 20);
    assert_eq!(q.hits_per_page, None);
}

#[test]
fn authorization_grant_applies_scoping_rules() {
    let mut base = query("movies");
    base.filter = vec!["genre = drama".to_string()];
    let mut dispatcher = Dispatcher::begin(vec![base]);
    let rules = vec!["tenant = 42".to_string()];
    let rewritten = dispatcher.on_authorization(true, Some(&rules)).unwrap();
    assert_eq!(
        rewritten.filter,
        vec!["genre = drama".to_string(), "tenant = 42".to_string()]
    );
    assert_eq!(rewritten.limit, 20);
}

#[test]
fn into_index_query_splits_an_entry() {
    let entry = SearchQueryWithIndex {
        index_uid: "movies".to_string(),
        filter: vec!["genre = drama".to_string()],
        limit: 7,
        hits_per_page: Some(3),
    };
    let (index_uid, q) = entry.into_index_query();
    assert_eq!(index_uid, "movies");
    assert_eq!(q.filter, vec!["genre = drama".to_string()]);
    assert_eq!(q.limit, 7);
    assert_eq!(q.hits_per_page, Some(3));
}
