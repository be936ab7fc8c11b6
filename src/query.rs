use vstd::prelude::*;

verus! {

/// The fragments `parts` joined by single spaces, in order; empty when
/// there are none.
pub open spec fn joined(parts: Seq<Seq<char>>) -> Seq<char>
    decreases parts.len(),
{
    if parts.len() == 0 {
        Seq::empty()
    } else if parts.len() == 1 {
        parts[0]
    } else {
        joined(parts.drop_last()) + " "@ + parts.last()
    }
}

/// The qualifier restricting a search to the repository `owner/name`.
pub open spec fn repo_qualifier(owner: Seq<char>, name: Seq<char>) -> Seq<char> {
    "repo:"@ + owner + "/"@ + name
}

/// The `is:` qualifier with the given flag, such as `pr` or `merged`.
pub open spec fn is_qualifier(flag: Seq<char>) -> Seq<char> {
    "is:"@ + flag
}

/// Appending a fragment to a non-empty list of fragments adds one space and
/// the fragment to the end of the rendering.
pub proof fn lemma_join_push(parts: Seq<Seq<char>>, x: Seq<char>)
    requires
        parts.len() > 0,
    ensures
        joined(parts.push(x)) == joined(parts) + " "@ + x,
{
    assert(parts.push(x).drop_last() =~= parts);
}

/// Three fragments appended in order render as the first, a space, the
/// second, a space and the third.
pub proof fn lemma_three_in_order(q1: Seq<char>, q2: Seq<char>, q3: Seq<char>)
    ensures
        joined(Seq::empty().push(q1).push(q2).push(q3)) == q1 + " "@ + q2 + " "@ + q3,
{
    let one = Seq::<Seq<char>>::empty().push(q1);
    assert(joined(one) == q1);
    lemma_join_push(one, q2);
    lemma_join_push(one.push(q2), q3);
}

/// A search query: the qualifiers and free-text terms added so far, in the
/// order they were added.
pub struct Query {
    parts: Vec<String>,
}

impl View for Query {
    type V = Seq<Seq<char>>;

    /// The fragments of the query, in the order they were added.
    closed spec fn view(&self) -> Seq<Seq<char>> {
        self.parts@.map_values(|p: String| p@)
    }
}

impl Query {
    /// An empty query.
    pub fn new() -> (r: Query)
        ensures
            r@ == Seq::<Seq<char>>::empty(),
    {
        let r = Query { parts: Vec::new() };
        assert(r@ =~= Seq::<Seq<char>>::empty());
        r
    }

    fn with_part(self, part: String) -> (r: Query)
        ensures
            r@ == self@.push(part@),
    {
        let mut parts = self.parts;
        parts.push(part);
        let r = Query { parts };
        assert(r@ =~= self@.push(part@));
        r
    }

    /// Restricts the search to the repository `owner/name`.
    pub fn repo(self, owner: &str, name: &str) -> (r: Query)
        ensures
            r@ == self@.push(repo_qualifier(owner@, name@)),
    {
        let mut part = String::from_str("repo:");
        part.append(owner);
        part.append("/");
        part.append(name);
        self.with_part(part)
    }

    /// Adds the qualifier `is:<flag>`, for instance `is:pr` or `is:merged`.
    pub fn is(self, flag: &str) -> (r: Query)
        ensures
            r@ == self@.push(is_qualifier(flag@)),
    {
        let mut part = String::from_str("is:");
        part.append(flag);
        self.with_part(part)
    }

    /// Adds a free-text term, taken as it is.
    pub fn text(self, term: &str) -> (r: Query)
        ensures
            r@ == self@.push(term@),
    {
        self.with_part(String::from_str(term))
    }

    /// The query string: the fragments joined by single spaces, in the
    /// order they were added. The result depends on the fragments alone, so
    /// rendering twice without a change in between gives the same string.
    pub fn to_string(&self) -> (r: String)
        ensures
            r@ == joined(self@),
    {
        let mut out = String::new();
        let n = self.parts.len();
        let mut i: usize = 0;
        while i < n
            invariant
                n == self.parts@.len(),
                i <= n,
                out@ == joined(self@.subrange(0, i as int)),
            decreases n - i,
        {
            let ghost before = self@.subrange(0, i as int);
            if i > 0 {
                out.append(" ");
            }
            out.append(self.parts[i].as_str());
            proof {
                let after = self@.subrange(0, i + 1);
                assert(after =~= before.push(self@[i as int]));
                if i > 0 {
                    lemma_join_push(before, self@[i as int]);
                } else {
                    assert(before =~= Seq::<Seq<char>>::empty());
                    assert(out@ =~= joined(after));
                }
            }
            i = i + 1;
        }
        assert(self@.subrange(0, n as int) =~= self@);
        out
    }
}

} // verus!
