//! What is shown for each page of a response.

use vstd::prelude::*;
use vstd::string::*;

use crate::schema::{wiki_url, Page};

verus! {

/// How much of an extract is shown.
#[derive(Clone, Copy, Debug, PartialEq, Eq)]
pub enum PrintOptions {
    /// The text up to the first line break.
    FirstParagraphOnly,
    /// The whole extract.
    All,
}

impl Default for PrintOptions {
    fn default() -> (r: Self)
        ensures
            r == PrintOptions::FirstParagraphOnly,
    {
        PrintOptions::FirstParagraphOnly
    }
}

/// The index of the first line break of `s` at or after `i`, or the length
/// of `s` when there is none.
pub open spec fn line_end(s: Seq<char>, i: int) -> int
    decreases s.len() - i,
{
    if i >= s.len() {
        s.len() as int
    } else if s[i] == '\n' {
        i
    } else {
        line_end(s, i + 1)
    }
}

/// The text of `s` up to its first line break.
pub open spec fn first_paragraph(s: Seq<char>) -> Seq<char> {
    s.subrange(0, line_end(s, 0))
}

/// Returns the text of `s` up to its first line break.
pub fn first_paragraph_of(s: &str) -> (r: String)
    ensures
        r@ == first_paragraph(s@),
{
    let n = s.unicode_len();
    let mut i: usize = 0;
    while i < n
        invariant
            n == s@.len(),
            i <= n,
            line_end(s@, 0) == line_end(s@, i as int),
        ensures
            i <= n,
            line_end(s@, 0) == i,
        decreases n - i,
    {
        if s.get_char(i) == '\n' {
            break;
        }
        i = i + 1;
    }
    String::from_str(s.substring_char(0, i))
}

/// The part of `extract` that is shown under `options`.
pub open spec fn shown_extract(extract: Seq<char>, options: PrintOptions) -> Seq<char> {
    match options {
        PrintOptions::All => extract,
        PrintOptions::FirstParagraphOnly => first_paragraph(extract),
    }
}

/// What is shown for one page.
pub enum PageReport {
    /// The title does not resolve to a page.
    NotFound { title: String },
    /// The page, with the part of its extract to show and a link to it.
    Found { title: String, page_id: usize, extract: String, read_more: String },
}

/// `r` is what is shown for `page`, with links under `root_uri`: a missing
/// page gives only its title; any other its title, id, shown extract and
/// link.
pub open spec fn reports(r: PageReport, page: Page, root_uri: Seq<char>, options: PrintOptions) -> bool {
    if page.is_missing() {
        r matches PageReport::NotFound { title } && title@ == page.title@
    } else {
        &&& r matches PageReport::Found { title, page_id, extract, read_more }
        &&& title@ == page.title@
        &&& Some(page_id) == page.page_id
        &&& extract@ == shown_extract(page.extract->0@, options)
        &&& read_more@ == wiki_url(root_uri, page.title@)
    }
}

/// What is shown for `page`. A missing page is reported as not found
/// without its id or extract being read.
pub fn report_page(page: &Page, root_uri: &str, options: PrintOptions) -> (r: PageReport)
    requires
        page.wf(),
    ensures
        reports(r, *page, root_uri@, options),
{
    if page.missing_page() {
        return PageReport::NotFound { title: page.title.clone() };
    }
    let page_id = match page.page_id {
        Some(id) => id,
        None => 0,
    };
    let extract = match &page.extract {
        Some(text) => match options {
            PrintOptions::All => text.clone(),
            PrintOptions::FirstParagraphOnly => first_paragraph_of(text.as_str()),
        },
        None => String::new(),
    };
    PageReport::Found {
        title: page.title.clone(),
        page_id,
        extract,
        read_more: page.get_wiki_url(root_uri),
    }
}

/// What is shown for each page, in order.
pub fn report_pages(pages: &Vec<Page>, root_uri: &str, options: PrintOptions) -> (r: Vec<PageReport>)
    requires
        forall|i: int| 0 <= i < pages@.len() ==> #[trigger] pages@[i].wf(),
    ensures
        r@.len() == pages@.len(),
        forall|i: int| 0 <= i < r@.len() ==> reports(#[trigger] r@[i], pages@[i], root_uri@, options),
{
    let mut out: Vec<PageReport> = Vec::new();
    let mut i: usize = 0;
    while i < pages.len()
        invariant
            i <= pages@.len(),
            out@.len() == i,
            forall|j: int| 0 <= j < pages@.len() ==> #[trigger] pages@[j].wf(),
            forall|j: int| 0 <= j < i ==> reports(#[trigger] out@[j], pages@[j], root_uri@, options),
        decreases pages@.len() - i,
    {
        out.push(report_page(&pages[i], root_uri, options));
        i = i + 1;
    }
    out
}

} // verus!
