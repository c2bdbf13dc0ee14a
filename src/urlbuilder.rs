//! Building the request URL of a query from a small set of options.

use vstd::prelude::*;
use vstd::string::*;

verus! {

/// The wiki that a query goes to.
#[derive(Clone, Debug, PartialEq, Eq)]
pub enum WikiSubdomain {
    SimpleWikipedia,
    Wikipedia,
    /// Any other host, written as it appears in the URL.
    Host(String),
}

/// The parameters of a query, but for the titles.
#[derive(Clone, Copy, Debug, PartialEq, Eq)]
pub struct QueryParams {
    pub format: Format,
    pub formatversion: FormatVersion,
    pub redirects: bool,
    pub prop: Prop,
}

/// The format of the response.
#[derive(Clone, Copy, Debug, PartialEq, Eq)]
pub enum Format {
    JSON,
    PHP,
    XML,
    Debug,
    /// No output at all (`format=none`).
    NoOutput,
}

/// The property asked for.
#[derive(Clone, Copy, Debug, PartialEq, Eq)]
pub enum Prop {
    Extracts { intro_only: bool, plaintext: bool },
    Revisions,
}

/// The version of the response format.
#[derive(Clone, Copy, Debug, PartialEq, Eq)]
pub enum FormatVersion {
    BackwardsCompatible,
    Modern,
}

/// A wiki and the parameters of a query to it.
pub struct WikiURL {
    subdomain: WikiSubdomain,
    queries: QueryParams,
}

/// Renders a value as (a part of) a request URL.
pub trait ToURL {
    fn to_url(&self) -> String;
}

/// `s` when `b` holds, else nothing.
pub open spec fn when(b: bool, s: Seq<char>) -> Seq<char> {
    if b {
        s
    } else {
        Seq::empty()
    }
}

/// Whether `a` and `b` hold the same text.
fn same_text(a: &str, b: &str) -> (r: bool)
    ensures
        r == (a@ == b@),
{
    let n = a.unicode_len();
    if n != b.unicode_len() {
        return false;
    }
    let mut i: usize = 0;
    while i < n
        invariant
            n == a@.len(),
            n == b@.len(),
            i <= n,
            a@.subrange(0, i as int) == b@.subrange(0, i as int),
        decreases n - i,
    {
        if a.get_char(i) != b.get_char(i) {
            return false;
        }
        assert(a@.subrange(0, i + 1) =~= a@.subrange(0, i as int).push(a@[i as int]));
        assert(b@.subrange(0, i + 1) =~= b@.subrange(0, i as int).push(b@[i as int]));
        i = i + 1;
    }
    assert(a@ =~= a@.subrange(0, n as int));
    assert(b@ =~= b@.subrange(0, n as int));
    true
}

impl WikiSubdomain {
    /// The wiki that a name on the command line selects: `en` the English
    /// wiki, `simple` the simple English one. Any other name selects none.
    pub fn from_name(name: &str) -> (r: Option<WikiSubdomain>)
        ensures
            name@ == "en"@ ==> r == Some(WikiSubdomain::Wikipedia),
            name@ == "simple"@ ==> r == Some(WikiSubdomain::SimpleWikipedia),
            name@ != "en"@ && name@ != "simple"@ ==> r is None,
    {
        proof {
            reveal_strlit("en");
            reveal_strlit("simple");
            assert("en"@.len() != "simple"@.len());
        }
        if same_text(name, "en") {
            Some(WikiSubdomain::Wikipedia)
        } else if same_text(name, "simple") {
            Some(WikiSubdomain::SimpleWikipedia)
        } else {
            None
        }
    }

    /// The host name of the wiki.
    pub open spec fn host(&self) -> Seq<char> {
        match self {
            WikiSubdomain::SimpleWikipedia => "simple.wikipedia.org"@,
            WikiSubdomain::Wikipedia => "en.wikipedia.org"@,
            WikiSubdomain::Host(h) => h@,
        }
    }

    /// The host name of the wiki.
    pub fn to_string(&self) -> (r: String)
        ensures
            r@ == self.host(),
    {
        match self {
            WikiSubdomain::SimpleWikipedia => String::from_str("simple.wikipedia.org"),
            WikiSubdomain::Wikipedia => String::from_str("en.wikipedia.org"),
            WikiSubdomain::Host(h) => h.clone(),
        }
    }
}

impl Format {
    /// The `format` parameter.
    pub open spec fn param(&self) -> Seq<char> {
        "format="@ + match self {
            Format::JSON => "json"@,
            Format::PHP => "php"@,
            Format::XML => "xml"@,
            Format::Debug => "rawfm"@,
            Format::NoOutput => "none"@,
        }
    }
}

impl ToURL for Format {
    fn to_url(&self) -> (r: String)
        ensures
            r@ == self.param(),
    {
        let mut out = String::from_str("format=");
        let name = match self {
            Format::JSON => "json",
            Format::PHP => "php",
            Format::XML => "xml",
            Format::Debug => "rawfm",
            Format::NoOutput => "none",
        };
        out.append(name);
        out
    }
}

impl FormatVersion {
    /// The `formatversion` parameter.
    pub open spec fn param(&self) -> Seq<char> {
        match self {
            FormatVersion::BackwardsCompatible => "formatversion=1"@,
            FormatVersion::Modern => "formatversion=2"@,
        }
    }
}

impl ToURL for FormatVersion {
    fn to_url(&self) -> (r: String)
        ensures
            r@ == self.param(),
    {
        match self {
            FormatVersion::BackwardsCompatible => String::from_str("formatversion=1"),
            FormatVersion::Modern => String::from_str("formatversion=2"),
        }
    }
}

impl Prop {
    /// The `prop` parameter, with the flags of extracts right after it.
    pub open spec fn param(&self) -> Seq<char> {
        match self {
            Prop::Extracts { intro_only, plaintext } => "prop=extracts"@ + when(
                *intro_only,
                "&exintro=1"@,
            ) + when(*plaintext, "&explaintext=1"@),
            Prop::Revisions => "prop=revisions"@,
        }
    }
}

impl ToURL for Prop {
    fn to_url(&self) -> (r: String)
        ensures
            r@ == self.param(),
    {
        match self {
            Prop::Extracts { intro_only, plaintext } => {
                let mut out = String::from_str("prop=extracts");
                if *intro_only {
                    out.append("&exintro=1");
                }
                if *plaintext {
                    out.append("&explaintext=1");
                }
                proof {
                    assert(out@ =~= self.param());
                }
                out
            },
            Prop::Revisions => String::from_str("prop=revisions"),
        }
    }
}

impl QueryParams {
    /// The query string: action, format, format version, the property, and
    /// `redirects=1` last when redirects are followed.
    pub open spec fn query(&self) -> Seq<char> {
        "action=query&"@ + self.format.param() + "&"@ + self.formatversion.param() + "&"@
            + self.prop.param() + when(self.redirects, "&redirects=1"@)
    }
}

impl ToURL for QueryParams {
    fn to_url(&self) -> (r: String)
        ensures
            r@ == self.query(),
    {
        let mut out = String::from_str("action=query&");
        out.append(self.format.to_url().as_str());
        out.append("&");
        out.append(self.formatversion.to_url().as_str());
        out.append("&");
        out.append(self.prop.to_url().as_str());
        if self.redirects {
            out.append("&redirects=1");
        }
        proof {
            assert(out@ =~= self.query());
        }
        out
    }
}

/// The order of a query string is fixed: the `prop` parameter comes after
/// the action, format and format version; the flags of extracts follow it,
/// `exintro` before `explaintext`; and `redirects=1` comes last.
pub proof fn lemma_param_order(q: QueryParams)
    ensures
        q.prop matches Prop::Extracts { intro_only, plaintext } ==> q.query() == "action=query&"@
            + q.format.param() + "&"@ + q.formatversion.param() + "&"@ + "prop=extracts"@ + when(
            intro_only,
            "&exintro=1"@,
        ) + when(plaintext, "&explaintext=1"@) + when(q.redirects, "&redirects=1"@),
        q.prop is Revisions ==> q.query() == "action=query&"@ + q.format.param() + "&"@
            + q.formatversion.param() + "&"@ + "prop=revisions"@ + when(
            q.redirects,
            "&redirects=1"@,
        ),
{
    let head = "action=query&"@ + q.format.param() + "&"@ + q.formatversion.param() + "&"@;
    let tail = when(q.redirects, "&redirects=1"@);
    assert(q.query() == head + q.prop.param() + tail);
    match q.prop {
        Prop::Extracts { intro_only, plaintext } => {
            let a = when(intro_only, "&exintro=1"@);
            let b = when(plaintext, "&explaintext=1"@);
            assert(head + ("prop=extracts"@ + a + b) + tail =~= head + "prop=extracts"@ + a + b
                + tail);
        },
        Prop::Revisions => {},
    }
}

/// The parameters that come before `prop` in a query string.
pub open spec fn lead_params(q: QueryParams) -> Seq<char> {
    "action=query&"@ + q.format.param() + "&"@ + q.formatversion.param() + "&"@
}

/// Where each parameter of an extracts query stands: `prop=extracts` right
/// after the leading parameters, then `&exintro=1` if asked for, then
/// `&explaintext=1` if asked for, and `&redirects=1` at the very end when
/// redirects are followed, after all of them.
pub proof fn lemma_param_positions(q: QueryParams)
    requires
        q.prop is Extracts,
    ensures
        ({
            let s = q.query();
            let p = lead_params(q).len() as int;
            let i = p + 13;
            let e = i + if q.prop->intro_only { 10int } else { 0int };
            let r = e + if q.prop->plaintext { 14int } else { 0int };
            &&& s.subrange(p, i) == "prop=extracts"@
            &&& q.prop->intro_only ==> s.subrange(i, e) == "&exintro=1"@
            &&& q.prop->plaintext ==> s.subrange(e, r) == "&explaintext=1"@
            &&& q.redirects ==> s.len() == r + 12 && s.subrange(r, s.len() as int) == "&redirects=1"@
            &&& !q.redirects ==> s.len() == r
        }),
{
    reveal_strlit("prop=extracts");
    reveal_strlit("&exintro=1");
    reveal_strlit("&explaintext=1");
    reveal_strlit("&redirects=1");
    let lead = lead_params(q);
    let a = "prop=extracts"@;
    let b = when(q.prop->intro_only, "&exintro=1"@);
    let c = when(q.prop->plaintext, "&explaintext=1"@);
    let d = when(q.redirects, "&redirects=1"@);
    lemma_param_order(q);
    let s = q.query();
    assert(s =~= lead + a + b + c + d);
    let p = lead.len() as int;
    assert(s.subrange(p, p + a.len()) =~= a);
    assert(s.subrange(p + a.len(), p + a.len() + b.len()) =~= b);
    assert(s.subrange(p + a.len() + b.len(), p + a.len() + b.len() + c.len()) =~= c);
    assert(s.subrange(p + a.len() + b.len() + c.len(), s.len() as int) =~= d);
}

/// The query options used when none are given.
pub open spec fn default_params() -> QueryParams {
    QueryParams {
        format: Format::JSON,
        formatversion: FormatVersion::Modern,
        redirects: true,
        prop: Prop::Extracts { intro_only: true, plaintext: true },
    }
}

impl WikiURL {
    /// The wiki queried.
    pub closed spec fn subdomain_of(&self) -> WikiSubdomain {
        self.subdomain
    }

    /// The query parameters.
    pub closed spec fn params_of(&self) -> QueryParams {
        self.queries
    }

    /// The root of the wiki: `https://` and its host.
    pub open spec fn root_uri(&self) -> Seq<char> {
        "https://"@ + self.subdomain_of().host()
    }

    /// The full request URL, without titles.
    pub open spec fn url(&self) -> Seq<char> {
        self.root_uri() + "/w/api.php?"@ + self.params_of().query()
    }

    /// The default query to the simple English wiki.
    pub fn new() -> (r: Self)
        ensures
            r.subdomain_of() == WikiSubdomain::SimpleWikipedia,
            r.params_of() == default_params(),
    {
        Self::default()
    }

    /// The same query, to another wiki.
    pub fn with_subdomain(self, subdomain: WikiSubdomain) -> (r: Self)
        ensures
            r.subdomain_of() == subdomain,
            r.params_of() == self.params_of(),
    {
        let mut this = self;
        this.subdomain = subdomain;
        this
    }

    /// The same wiki, with other query parameters.
    pub fn with_props(self, q: QueryParams) -> (r: Self)
        ensures
            r.subdomain_of() == self.subdomain_of(),
            r.params_of() == q,
    {
        let mut this = self;
        this.queries = q;
        this
    }

    /// The root of the wiki, to which page links are appended.
    pub fn get_root_uri(&self) -> (r: String)
        ensures
            r@ == self.root_uri(),
    {
        let mut out = String::from_str("https://");
        out.append(self.subdomain.to_string().as_str());
        out
    }
}

impl Default for WikiURL {
    fn default() -> (r: Self)
        ensures
            r.subdomain_of() == WikiSubdomain::SimpleWikipedia,
            r.params_of() == default_params(),
    {
        WikiURL {
            subdomain: WikiSubdomain::SimpleWikipedia,
            queries: QueryParams {
                format: Format::JSON,
                formatversion: FormatVersion::Modern,
                redirects: true,
                prop: Prop::Extracts { intro_only: true, plaintext: true },
            },
        }
    }
}

impl ToURL for WikiURL {
    fn to_url(&self) -> (r: String)
        ensures
            r@ == self.url(),
    {
        let mut out = self.get_root_uri();
        out.append("/w/api.php?");
        out.append(self.queries.to_url().as_str());
        out
    }
}

} // verus!
