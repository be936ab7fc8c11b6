//! Building queries for GitHub's search API and assembling the request
//! that runs them.
//!
//! A [`Query`] accumulates qualifiers such as `repo:owner/name` or `is:pr`
//! and renders them as one space-separated string. A [`Search`] snapshots
//! that string together with a search area and pagination settings, and
//! renders the request URL. Sending the request and decoding the response
//! is left to the caller; the decoded response is held in [`SearchResults`].
mod query;
mod results;
mod search;

pub use query::{
    is_qualifier, joined, lemma_join_push, lemma_three_in_order, repo_qualifier, Query,
};
pub use results::{SearchResults, SearchResultsView};
pub use search::{
    decimal, digit_text, is_ready, lemma_default_not_ready, missing_message, or_empty, url_for,
    url_of, Search, SearchError, SearchView,
};
