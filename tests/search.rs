use github_stats::{Query, Search, SearchResults};

#[test]
fn err_on_none() {
    let default_search = Search::default().request_url();
    assert!(default_search.is_err(), "should be Err, due to missing search area and query")
}

#[test]
fn missing_area_message() {
    let err = Search::default().request_url().err().unwrap();
    assert_eq!(
        err.to_string(),
        "Please provide search area and query by using Search::new()"
    );
}

#[test]
fn url_for_merged_prs() {
    let query = Query::new().repo("rust-lang", "rust").is("pr").is("merged");
    assert_eq!(query.to_string(), "repo:rust-lang/rust is:pr is:merged");
    let search = Search::new("issues", &query).per_page(10).page(1);
    assert_eq!(
        search.request_url().ok().unwrap(),
        "https://api.github.com/search/issues?per_page=10&page=1&q=repo:rust-lang/rust is:pr is:merged"
    );
    assert_eq!(search.to_string(), search.request_url().ok().unwrap());
}

#[test]
fn rendering_twice_is_identical() {
    let query = Query::new().repo("a", "b").text("crash").is("open");
    let first = query.to_string();
    let second = query.to_string();
    assert_eq!(first, second);
    assert_eq!(first, "repo:a/b crash is:open");
}

#[test]
fn qualifiers_keep_call_order() {
    let query = Query::new().is("merged").repo("o", "n").is("pr");
    assert_eq!(query.to_string(), "is:merged repo:o/n is:pr");
}

#[test]
fn empty_and_single_queries() {
    assert_eq!(Query::new().to_string(), "");
    assert_eq!(Query::new().is("issue").to_string(), "is:issue");
    assert_eq!(Query::new().text("").text("").to_string(), " ");
}

#[test]
fn default_search_url_is_blank() {
    assert_eq!(
        Search::default().to_string(),
        "https://api.github.com/search/?per_page=10&page=1&q="
    );
}

#[test]
fn empty_area_is_still_ready() {
    let search = Search::new("", &Query::new());
    assert_eq!(
        search.request_url().ok().unwrap(),
        "https://api.github.com/search/?per_page=10&page=1&q="
    );
}

#[test]
fn next_page_saturates_at_max() {
    let mut search = Search::new("issues", &Query::new()).page(usize::MAX);
    search.next_page();
    let expected = format!(
        "https://api.github.com/search/issues?per_page=10&page={}&q=",
        usize::MAX
    );
    assert_eq!(search.to_string(), expected);
}

#[test]
fn prev_page_stops_at_first() {
    let mut search = Search::new("issues", &Query::new());
    search.prev_page();
    assert_eq!(
        search.to_string(),
        "https://api.github.com/search/issues?per_page=10&page=1&q="
    );
}

#[test]
fn paging_moves_by_one() {
    let mut search = Search::new("issues", &Query::new()).page(3);
    search.next_page();
    assert_eq!(
        search.to_string(),
        "https://api.github.com/search/issues?per_page=10&page=4&q="
    );
    search.prev_page();
    search.prev_page();
    assert_eq!(
        search.to_string(),
        "https://api.github.com/search/issues?per_page=10&page=2&q="
    );
}

#[test]
fn page_zero_is_left_alone() {
    let mut search = Search::new("users", &Query::new()).page(0).per_page(100);
    search.prev_page();
    assert_eq!(
        search.to_string(),
        "https://api.github.com/search/users?per_page=100&page=0&q="
    );
}

#[test]
fn query_is_snapshot_at_construction() {
    let query = Query::new().is("pr");
    let search = Search::new("issues", &query);
    let query = query.is("merged");
    assert_eq!(query.to_string(), "is:pr is:merged");
    assert_eq!(
        search.to_string(),
        "https://api.github.com/search/issues?per_page=10&page=1&q=is:pr"
    );
}

#[test]
fn result_accessors() {
    let first: serde_json::Value = serde_json::from_str("{\"id\":1}").unwrap();
    let second: serde_json::Value = serde_json::from_str("{\"id\":2}").unwrap();
    let results = SearchResults::new(42, vec![first.clone(), second.clone()]);
    assert_eq!(results.total_count(), 42);
    assert_eq!(results.items().len(), 2);
    assert_eq!(results.items()[0], first);
    assert_eq!(results.items()[1], second);
    assert_eq!(results.items()[1]["id"], serde_json::Value::from(2));
}
