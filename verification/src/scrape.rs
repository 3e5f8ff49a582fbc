//! The scrape stage's normalised result: the first organic result of the HTML
//! results page, reduced to a title, a canonical URL and a snippet.

use vstd::prelude::*;

verus! {

/// The sentinel title that marks a "nothing found" scrape result.
pub open spec fn sentinel_title() -> Seq<char> {
    "No result found!"@
}

/// One organic search result taken from the HTML results page.
///
/// On success all three fields are non-empty; the sentinel value (a fixed
/// placeholder title, empty URL, empty content) stands for "nothing found"
/// and is distinguishable from a hard failure.
#[derive(Debug, Clone, PartialEq, Eq)]
pub struct ScrapeResponse {
    pub title: String,
    pub url: String,
    pub content: String,
}

impl ScrapeResponse {
    pub fn new(title: String, url: String, content: String) -> (r: Self)
        ensures
            r.title == title,
            r.url == url,
            r.content == content,
    {
        Self { title, url, content }
    }

    /// A result carries something to show only when every field is non-empty.
    pub open spec fn spec_is_usable(&self) -> bool {
        self.title@.len() > 0 && self.url@.len() > 0 && self.content@.len() > 0
    }

    pub fn is_usable(&self) -> (r: bool)
        ensures
            r == self.spec_is_usable(),
    {
        !self.title.as_str().is_empty() && !self.url.as_str().is_empty()
            && !self.content.as_str().is_empty()
    }

    /// The "nothing found" sentinel: placeholder title, empty URL and content.
    pub open spec fn spec_is_sentinel(&self) -> bool {
        self.title@ == sentinel_title() && self.url@.len() == 0 && self.content@.len() == 0
    }
}

impl Default for ScrapeResponse {
    /// The sentinel value that represents "nothing found".
    fn default() -> (r: Self)
        ensures
            r.spec_is_sentinel(),
            !r.spec_is_usable(),
    {
        Self { title: "No result found!".to_owned(), url: String::new(), content: String::new() }
    }
}

/// The sentinel is never mistaken for a usable result: its URL is empty.
pub proof fn lemma_sentinel_not_usable(r: ScrapeResponse)
    requires
        r.spec_is_sentinel(),
    ensures
        !r.spec_is_usable(),
{
}

} // verus!
