//! Titles, their normalization, and the shape of a query response.

use vstd::prelude::*;
use vstd::string::*;

verus! {

/// What normalizing does to one character: a space becomes an underscore.
pub open spec fn normalize_char(c: char) -> char {
    if c == ' ' {
        '_'
    } else {
        c
    }
}

/// The normalized form of a title: every space replaced by an underscore.
pub open spec fn normalized(s: Seq<char>) -> Seq<char> {
    s.map_values(|c: char| normalize_char(c))
}

/// Normalizing is idempotent: a normalized title normalizes to itself.
pub proof fn lemma_normalize_idempotent(s: Seq<char>)
    ensures
        normalized(normalized(s)) == normalized(s),
{
    assert(normalized(normalized(s)) =~= normalized(s));
}

/// Replaces every space of `s` with an underscore.
pub fn normalize(s: &str) -> (r: String)
    ensures
        r@ == normalized(s@),
{
    let n = s.unicode_len();
    let mut out = String::new();
    let mut i: usize = 0;
    while i < n
        invariant
            n == s@.len(),
            i <= n,
            out@ == normalized(s@.subrange(0, i as int)),
        decreases n - i,
    {
        let c = s.get_char(i);
        if c == ' ' {
            out.append("_");
        } else {
            out.append(s.substring_char(i, i + 1));
        }
        proof {
            reveal_strlit("_");
            assert(normalized(s@.subrange(0, i + 1)) =~= normalized(s@.subrange(0, i as int)).push(
                normalize_char(c),
            ));
        }
        i = i + 1;
    }
    assert(s@.subrange(0, n as int) =~= s@);
    out
}

/// A string wrapper that remembers whether it has been normalized.
pub struct Title {
    normalized: bool,
    title: String,
}

impl Title {
    /// The text held.
    pub closed spec fn text(&self) -> Seq<char> {
        self.title@
    }

    /// Whether the text has been normalized.
    pub closed spec fn is_normalized(&self) -> bool {
        self.normalized
    }

    /// A normalized title holds no space.
    #[verifier::type_invariant]
    spec fn inv(&self) -> bool {
        self.normalized ==> normalized(self.title@) == self.title@
    }

    /// Creates a title that is not yet normalized.
    pub fn new(title: &str) -> (r: Title)
        ensures
            r.text() == title@,
            !r.is_normalized(),
    {
        Title { normalized: false, title: String::from_str(title) }
    }

    /// Returns the normalized form of this title.
    pub fn normalize(&self) -> (r: Title)
        ensures
            r.text() == normalized(self.text()),
            r.is_normalized(),
    {
        proof {
            lemma_normalize_idempotent(self.title@);
        }
        Title { normalized: true, title: normalize(self.title.as_str()) }
    }

    /// The text this title stands for in a request: its normalized form.
    pub fn to_request_text(&self) -> (r: String)
        ensures
            r@ == normalized(self.text()),
    {
        proof {
            use_type_invariant(self);
        }
        if self.normalized {
            self.title.clone()
        } else {
            normalize(self.title.as_str())
        }
    }
}

/// The request texts of a list of titles.
pub open spec fn request_texts(titles: Seq<Title>) -> Seq<Seq<char>> {
    titles.map_values(|t: Title| normalized(t.text()))
}

/// Conversion of a list into the strings that a request sends.
pub trait ToStrVec {
    /// Turns `self` into a vector of strings.
    fn to_str_vec(&self) -> Vec<String>;
}

impl ToStrVec for Vec<Title> {
    /// Each title in order, normalized where it was not yet.
    fn to_str_vec(&self) -> (r: Vec<String>)
        ensures
            r@.len() == self@.len(),
            forall|i: int| 0 <= i < r@.len() ==> #[trigger] r@[i]@ == request_texts(self@)[i],
    {
        let mut out: Vec<String> = Vec::new();
        let mut i: usize = 0;
        while i < self.len()
            invariant
                i <= self@.len(),
                out@.len() == i,
                forall|j: int| 0 <= j < i ==> #[trigger] out@[j]@ == request_texts(self@)[j],
            decreases self@.len() - i,
        {
            let t = self[i].to_request_text();
            out.push(t);
            i = i + 1;
        }
        out
    }
}

/// `parts` joined with `sep` between each two neighbours.
pub open spec fn joined(parts: Seq<Seq<char>>, sep: Seq<char>) -> Seq<char>
    decreases parts.len(),
{
    if parts.len() == 0 {
        Seq::empty()
    } else if parts.len() == 1 {
        parts[0]
    } else {
        joined(parts.drop_last(), sep) + sep + parts.last()
    }
}

/// Joins `parts` with `sep` between each two neighbours.
pub fn join(parts: &Vec<String>, sep: &str) -> (r: String)
    ensures
        r@ == joined(parts@.map_values(|p: String| p@), sep@),
{
    let ghost views = parts@.map_values(|p: String| p@);
    let mut out = String::new();
    let mut i: usize = 0;
    while i < parts.len()
        invariant
            i <= parts@.len(),
            views == parts@.map_values(|p: String| p@),
            out@ == joined(views.subrange(0, i as int), sep@),
        decreases parts@.len() - i,
    {
        if i > 0 {
            out.append(sep);
        }
        out.append(parts[i].as_str());
        proof {
            let next = views.subrange(0, i + 1);
            assert(next.drop_last() =~= views.subrange(0, i as int));
            if i == 0 {
                assert(views.subrange(0, 0) =~= Seq::<Seq<char>>::empty());
            }
        }
        i = i + 1;
    }
    assert(views.subrange(0, parts@.len() as int) =~= views);
    out
}

/// The URL that asks for `titles`: `url`, then `&titles=` and the request
/// texts of the titles joined by an encoded pipe.
pub open spec fn titles_url(url: Seq<char>, titles: Seq<Title>) -> Seq<char> {
    url + "&titles="@ + joined(request_texts(titles), "%7C"@)
}

/// Appends the titles to a query URL that holds every other parameter.
pub fn request_url(url: &str, titles: &Vec<Title>) -> (r: String)
    ensures
        r@ == titles_url(url@, titles@),
{
    let texts = titles.to_str_vec();
    assert(texts@.map_values(|p: String| p@) =~= request_texts(titles@));
    let joined_titles = join(&texts, "%7C");
    let mut out = String::from_str(url);
    out.append("&titles=");
    out.append(joined_titles.as_str());
    out
}

/// The body of a query response.
pub struct WikiResponse {
    pub query: Query,
}

/// The `query` object of a response.
pub struct Query {
    pub pages: Vec<Page>,
}

/// One page of a response, in the order the titles were asked for.
pub struct Page {
    pub page_id: Option<usize>,
    pub title: String,
    pub extract: Option<String>,
    pub missing: Option<bool>,
}

/// An exact copy of an optional string.
fn copy_text(s: &Option<String>) -> (r: Option<String>)
    ensures
        r == *s,
{
    match s {
        Some(t) => Some(t.clone()),
        None => None,
    }
}

impl Page {
    /// The API marks the page as not existing; only `true` counts.
    pub open spec fn is_missing(&self) -> bool {
        self.missing == Some(true)
    }

    /// A page that exists carries its id and its extract.
    pub open spec fn wf(&self) -> bool {
        self.is_missing() || (self.page_id is Some && self.extract is Some)
    }

    /// An exact copy of this page.
    pub fn duplicate(&self) -> (r: Page)
        ensures
            r == *self,
    {
        Page {
            page_id: self.page_id,
            title: self.title.clone(),
            extract: copy_text(&self.extract),
            missing: self.missing,
        }
    }

    /// Whether the page is marked as not existing.
    pub fn missing_page(&self) -> (r: bool)
        ensures
            r == self.is_missing(),
    {
        match self.missing {
            Some(m) => m,
            None => false,
        }
    }

    /// Whether the page satisfies `wf`.
    pub fn is_well_formed(&self) -> (r: bool)
        ensures
            r == self.wf(),
    {
        self.missing_page() || (self.page_id.is_some() && self.extract.is_some())
    }

    /// The human-facing link to this page under `root_uri`.
    pub fn get_wiki_url(&self, root_uri: &str) -> (r: String)
        ensures
            r@ == wiki_url(root_uri@, self.title@),
    {
        let mut out = String::from_str(root_uri);
        out.append("/wiki/");
        let name = normalize(self.title.as_str());
        out.append(name.as_str());
        out
    }
}

/// The link to the page titled `title` under `root_uri`.
pub open spec fn wiki_url(root_uri: Seq<char>, title: Seq<char>) -> Seq<char> {
    root_uri + "/wiki/"@ + normalized(title)
}

impl WikiResponse {
    /// Grabs the pages of the response, in order.
    pub fn pages(&self) -> (r: Vec<Page>)
        ensures
            r@ == self.query.pages@,
    {
        let mut out: Vec<Page> = Vec::new();
        let mut i: usize = 0;
        while i < self.query.pages.len()
            invariant
                i <= self.query.pages@.len(),
                out@ == self.query.pages@.subrange(0, i as int),
            decreases self.query.pages@.len() - i,
        {
            out.push(self.query.pages[i].duplicate());
            i = i + 1;
        }
        assert(out@ =~= self.query.pages@);
        out
    }
}

} // verus!
