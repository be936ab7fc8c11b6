use vstd::prelude::*;

use crate::query::{joined, Query};

verus! {

/// The decimal digit `d`, as text.
pub open spec fn digit_text(d: nat) -> Seq<char> {
    if d == 0 {
        "0"@
    } else if d == 1 {
        "1"@
    } else if d == 2 {
        "2"@
    } else if d == 3 {
        "3"@
    } else if d == 4 {
        "4"@
    } else if d == 5 {
        "5"@
    } else if d == 6 {
        "6"@
    } else if d == 7 {
        "7"@
    } else if d == 8 {
        "8"@
    } else {
        "9"@
    }
}

/// `n` in decimal, without leading zeros.
pub open spec fn decimal(n: nat) -> Seq<char>
    decreases n,
{
    if n < 10 {
        digit_text(n)
    } else {
        decimal(n / 10) + digit_text(n % 10)
    }
}

/// The request URL for a search of `area` for `query`, with `per_page`
/// results per page, on page `page`. The query is embedded as it is,
/// without percent-encoding.
pub open spec fn url_for(area: Seq<char>, query: Seq<char>, per_page: nat, page: nat) -> Seq<char> {
    "https://api.github.com/search/"@ + area + "?per_page="@ + decimal(per_page) + "&page="@
        + decimal(page) + "&q="@ + query
}

/// A search that lacks its area or its query, as the default search lacks
/// both, is not ready: asking it for its request URL gives the configuration
/// error, before any request is made.
pub proof fn lemma_default_not_ready(v: SearchView)
    requires
        v.area is None || v.query is None,
    ensures
        !is_ready(v),
{
}

/// The text of an absent string: empty.
pub open spec fn or_empty(s: Option<Seq<char>>) -> Seq<char> {
    match s {
        Some(t) => t,
        None => Seq::empty(),
    }
}

/// The request URL of a search; an absent area or query counts as empty.
pub open spec fn url_of(v: SearchView) -> Seq<char> {
    url_for(or_empty(v.area), or_empty(v.query), v.per_page, v.page)
}

/// The message of the error for a search without area or query.
pub open spec fn missing_message() -> Seq<char> {
    "Please provide search area and query by using Search::new()"@
}

/// Whether a search can run: it has both an area and a query.
pub open spec fn is_ready(v: SearchView) -> bool {
    v.area is Some && v.query is Some
}

fn digit_str(d: usize) -> (r: &'static str)
    requires
        d < 10,
    ensures
        r@ == digit_text(d as nat),
{
    if d == 0 {
        "0"
    } else if d == 1 {
        "1"
    } else if d == 2 {
        "2"
    } else if d == 3 {
        "3"
    } else if d == 4 {
        "4"
    } else if d == 5 {
        "5"
    } else if d == 6 {
        "6"
    } else if d == 7 {
        "7"
    } else if d == 8 {
        "8"
    } else {
        "9"
    }
}

/// Appends `n` in decimal to `out`.
fn append_decimal(out: &mut String, n: usize)
    ensures
        final(out)@ == old(out)@ + decimal(n as nat),
    decreases n,
{
    if n >= 10 {
        append_decimal(out, n / 10);
    }
    out.append(digit_str(n % 10));
    assert(final(out)@ =~= old(out)@ + decimal(n as nat));
}

/// The error of a search that lacks its area or its query.
pub struct SearchError(String);

impl View for SearchError {
    type V = Seq<char>;

    closed spec fn view(&self) -> Seq<char> {
        self.0@
    }
}

impl SearchError {
    /// The error's message.
    pub fn to_string(&self) -> (r: String)
        ensures
            r@ == self@,
    {
        self.0.clone()
    }
}

/// What a [`Search`] holds, as plain values.
pub struct SearchView {
    pub area: Option<Seq<char>>,
    pub query: Option<Seq<char>>,
    pub per_page: nat,
    pub page: nat,
}

/// A search of one area of GitHub (such as `issues`) with a rendered query
/// and pagination settings.
pub struct Search {
    search_area: Option<String>,
    query: Option<String>,
    per_page: usize,
    page: usize,
}

/// The view of an optional string.
pub open spec fn opt_view(s: Option<String>) -> Option<Seq<char>> {
    match s {
        Some(t) => Some(t@),
        None => None,
    }
}

impl View for Search {
    type V = SearchView;

    closed spec fn view(&self) -> SearchView {
        SearchView {
            area: opt_view(self.search_area),
            query: opt_view(self.query),
            per_page: self.per_page as nat,
            page: self.page as nat,
        }
    }
}

impl Default for Search {
    /// A search with neither area nor query, ten results per page, on the
    /// first page.
    fn default() -> (r: Search)
        ensures
            r@ == (SearchView { area: None, query: None, per_page: 10, page: 1 }),
    {
        Search { search_area: None, query: None, per_page: 10, page: 1 }
    }
}

impl Search {
    /// A search of `area` for the current rendering of `query`, with ten
    /// results per page, on the first page. Later changes to `query` do not
    /// reach the search.
    pub fn new(area: &str, query: &Query) -> (r: Search)
        ensures
            r@ == (SearchView {
                area: Some(area@),
                query: Some(joined(query@)),
                per_page: 10,
                page: 1,
            }),
    {
        Search {
            search_area: Some(String::from_str(area)),
            query: Some(query.to_string()),
            per_page: 10,
            page: 1,
        }
    }

    /// Sets the number of results per page.
    pub fn per_page(self, per_page: usize) -> (r: Search)
        ensures
            r@ == (SearchView { per_page: per_page as nat, ..self@ }),
    {
        let mut s = self;
        s.per_page = per_page;
        s
    }

    /// Sets the page to fetch.
    pub fn page(self, page: usize) -> (r: Search)
        ensures
            r@ == (SearchView { page: page as nat, ..self@ }),
    {
        let mut s = self;
        s.page = page;
        s
    }

    /// Moves one page forward, unless the page is already the largest
    /// `usize`.
    pub fn next_page(&mut self)
        ensures
            final(self)@ == (SearchView {
                page: if old(self)@.page < usize::MAX { old(self)@.page + 1 } else { old(self)@.page },
                ..old(self)@
            }),
    {
        if self.page < usize::MAX {
            self.page = self.page + 1;
        }
    }

    /// Moves one page backward. Pages count from 1, so on page 1 (or on a
    /// page 0 set by hand) nothing changes.
    pub fn prev_page(&mut self)
        ensures
            final(self)@ == (SearchView {
                page: if old(self)@.page > 1 { (old(self)@.page - 1) as nat } else { old(self)@.page },
                ..old(self)@
            }),
    {
        if self.page > 1 {
            self.page = self.page - 1;
        }
    }

    /// The request URL of this search. An absent area or query is left
    /// empty in it.
    pub fn to_string(&self) -> (r: String)
        ensures
            r@ == url_of(self@),
    {
        let mut out = String::from_str("https://api.github.com/search/");
        match &self.search_area {
            Some(a) => out.append(a.as_str()),
            None => {},
        }
        out.append("?per_page=");
        append_decimal(&mut out, self.per_page);
        out.append("&page=");
        append_decimal(&mut out, self.page);
        out.append("&q=");
        match &self.query {
            Some(q) => out.append(q.as_str()),
            None => {},
        }
        assert(out@ =~= url_of(self@));
        out
    }

    /// The URL to send for this search, or an error, before any request is
    /// made, when the area or the query is missing.
    pub fn request_url(&self) -> (r: Result<String, SearchError>)
        ensures
            r is Ok <==> is_ready(self@),
            r matches Ok(u) ==> u@ == url_of(self@),
            r matches Err(e) ==> e@ == missing_message(),
    {
        if self.search_area.is_some() && self.query.is_some() {
            Ok(self.to_string())
        } else {
            Err(SearchError(String::from_str("Please provide search area and query by using Search::new()")))
        }
    }
}

} // verus!