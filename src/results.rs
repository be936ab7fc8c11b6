use vstd::prelude::*;

verus! {

/// A JSON value as serde_json holds it; the items of a search response are
/// carried through as such values, unread.
#[verifier::external_type_specification]
#[verifier::external_body]
pub struct ExValue(serde_json::Value);

/// The answer to a search: how many matches there are in all, and the
/// matches of the requested page, in the order given.
pub struct SearchResults {
    total_count: u64,
    items: Vec<serde_json::Value>,
}

/// What a [`SearchResults`] holds.
pub struct SearchResultsView {
    pub total_count: u64,
    pub items: Seq<serde_json::Value>,
}

impl View for SearchResults {
    type V = SearchResultsView;

    closed spec fn view(&self) -> SearchResultsView {
        SearchResultsView { total_count: self.total_count, items: self.items@ }
    }
}

impl SearchResults {
    /// Results with `total_count` matches in all and `items` on this page.
    pub fn new(total_count: u64, items: Vec<serde_json::Value>) -> (r: SearchResults)
        ensures
            r@ == (SearchResultsView { total_count, items: items@ }),
    {
        SearchResults { total_count, items }
    }

    /// How many matches there are in all, whatever the page size. Where
    /// only this count is wanted, a page size of 1 keeps the response small.
    pub fn total_count(&self) -> (r: u64)
        ensures
            r == self@.total_count,
    {
        self.total_count
    }

    /// The matches on this page, in the order given.
    pub fn items(&self) -> (r: &Vec<serde_json::Value>)
        ensures
            r@ == self@.items,
    {
        &self.items
    }
}

} // verus!
