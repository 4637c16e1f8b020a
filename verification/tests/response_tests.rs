use multi_search::dispatch::QueryScript;
use multi_search::error::BAD_REQUEST;
use multi_search::error::FORBIDDEN;
use multi_search::error::NOT_FOUND;
use multi_search::error::NOT_IMPLEMENTED;
use multi_search::error::ResponseError;
use multi_search::error::attribute_position;
use multi_search::error::remap_index_not_found;
use multi_search::error::with_index;
use multi_search::multi_search::MergeStrategy;
use multi_search::multi_search::SearchQueries;
use multi_search::multi_search::max_hits_of;
use multi_search::multi_search::multi_search;
use multi_search::search::SearchHit;
use multi_search::search::SearchQueryWithIndex;
use multi_search::search::SearchResult;

fn query(index_uid: &str, limit: usize, hits_per_page: Option<usize>) -> SearchQueryWithIndex {
    SearchQueryWithIndex {
        index_uid: index_uid.to_string(),
        filter: Vec::new(),
        limit,
        hits_per_page,
    }
}

fn hits(scores: &[u64]) -> SearchResult {
    SearchResult {
        hits: scores
            .iter()
            .map(|s| SearchHit { document: format!("doc{s}"), ranking_score: Some(*s) })
            .collect(),
    }
}

fn ok_script(scores: &[u64]) -> QueryScript {
    QueryScript { authorized: true, rules: None, resolution: Ok(()), execution: Ok(hits(scores)) }
}

#[test]
fn response_without_merge_keeps_per_query_results() {
    let params = SearchQueries {
        queries: vec![query("movies", 20, None), query("books", 20, None)],
        merge_strategy: MergeStrategy::NoMerge,
    };
    let script = vec![ok_script(&[90, 50]), ok_script(&[80])];
    let response = multi_search(params, &script).unwrap();
    assert!(response.aggregate_hits.is_none());
    assert_eq!(response.results.len(), 2);
    assert_eq!(response.results[0].index_uid, "movies");
    assert_eq!(response.results[1].index_uid, "books");
    assert_eq!(response.results[0].result.hits[1].ranking_score, Some(50));
}

#[test]
fn response_merges_by_normalized_score() {
    let params = SearchQueries {
        queries: vec![query("A", 3, None), query("B", 2, None)],
        merge_strategy: MergeStrategy::ByNormalizedScore,
    };
    let script = vec![ok_script(&[90, 50]), ok_script(&[80, 70])];
    let response = multi_search(params, &script).unwrap();
    let merged = response.aggregate_hits.expect("a merge was requested");
    let tagged: Vec<(String, u64)> = merged
        .iter()
        .map(|e| (e.index_uid.clone(), e.hit.ranking_score.unwrap()))
        .collect();
    assert_eq!(
        tagged,
        vec![
            ("A".to_string(), 90),
            ("B".to_string(), 80),
            ("B".to_string(), 70),
        ]
    );
    assert_eq!(response.results.len(), 2);
}

#[test]
fn response_error_names_the_failing_position() {
    let denied = QueryScript {
        authorized: false,
        rules: None,
        resolution: Ok(()),
        execution: Ok(hits(&[10])),
    };
    let params = SearchQueries {
        queries: vec![query("movies", 20, None), query("books", 20, None), query("secret", 20, None)],
        merge_strategy: MergeStrategy::NoMerge,
    };
    let script = vec![ok_script(&[90]), ok_script(&[80]), denied];
    let err = multi_search(params, &script).unwrap_err();
    assert_eq!(err.code, FORBIDDEN);
    assert_eq!(err.message, "Inside `.queries[2]`: The provided API key is invalid.");
}

#[test]
fn score_details_strategy_is_not_implemented() {
    let params = SearchQueries {
        queries: vec![query("movies", 20, None)],
        merge_strategy: MergeStrategy::ByScoreDetails,
    };
    let script = vec![ok_script(&[90])];
    let err = multi_search(params, &script).unwrap_err();
    assert_eq!(err.code, NOT_IMPLEMENTED);
    assert_eq!(err.message, "The requested merge strategy is not implemented.");
}

#[test]
fn max_hits_is_the_largest_page_size_or_limit() {
    let queries = vec![query("a", 2, Some(7)), query("b", 5, None), query("c", 3, Some(1))];
    assert_eq!(max_hits_of(&queries), 7);
    let queries = vec![query("a", 2, None), query("b", 5, None)];
    assert_eq!(max_hits_of(&queries), 5);
    let queries = vec![query("a", 4, Some(0))];
    assert_eq!(max_hits_of(&queries), 0);
}

#[test]
fn attribution_prefixes_the_position() {
    let err = ResponseError { code: 500, message: "boom".to_string() };
    let attributed = attribute_position(err, 17);
    assert_eq!(attributed.code, 500);
    assert_eq!(attributed.message, "Inside `.queries[17]`: boom");
    let err = ResponseError { code: 400, message: "bad".to_string() };
    let attributed = attribute_position(err, 0);
    assert_eq!(attributed.message, "Inside `.queries[0]`: bad");
    let err = ResponseError { code: 400, message: String::new() };
    let attributed = attribute_position(err, 305);
    assert_eq!(attributed.message, "Inside `.queries[305]`: ");
}

#[test]
fn with_index_pairs_the_error_with_its_position() {
    let ok: Result<u32, ResponseError> = Ok(7);
    assert_eq!(with_index(ok, 3).unwrap(), 7);
    let err: Result<u32, ResponseError> =
        Err(ResponseError { code: 500, message: "boom".to_string() });
    let (e, position) = with_index(err, 3).unwrap_err();
    assert_eq!(position, 3);
    assert_eq!(e.code, 500);
}

#[test]
fn remap_keeps_message_and_forces_bad_request() {
    let err = ResponseError { code: NOT_FOUND, message: "Index `x` not found.".to_string() };
    let remapped = remap_index_not_found(err);
    assert_eq!(remapped.code, BAD_REQUEST);
    assert_eq!(remapped.message, "Index `x` not found.");
}

#[test]
fn default_strategy_is_no_merge() {
    assert_eq!(MergeStrategy::default(), MergeStrategy::NoMerge);
}
