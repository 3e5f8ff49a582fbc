//! Extraction of the first organic result from the engine's HTML results
//! page. The provider-markup-dependent queries are isolated in a few trusted
//! wrappers around the HTML parser; the staging, the error taxonomy and the
//! canonical-URL computation are verified.

use scraper::{Html, Selector};
use vstd::prelude::*;

use crate::link::{canonical_of, canonical_url};
use crate::scrape::ScrapeResponse;

verus! {

/// A specific expected element or attribute was missing from the markup.
/// Each extraction point has its own variant so failures stay diagnosable.
#[derive(Debug, Clone, Copy, PartialEq, Eq)]
pub enum ExtractError {
    /// No element matched the main organic-result body pattern.
    ContainerNotFound,
    /// The result body held no title/destination anchor.
    AnchorNotFound,
    /// The anchor carried no `href` attribute.
    HrefMissing,
    /// The anchor held no visible text to use as the title.
    TitleMissing,
    /// The result body held no snippet element.
    SnippetNotFound,
}

/// The serialised first element of a document that matches the organic
/// result-body pattern, if one is there.
pub uninterp spec fn result_body_of(html: Seq<char>) -> Option<Seq<char>>;

/// The serialised first result anchor inside a result body, if one is there.
pub uninterp spec fn result_anchor_of(body: Seq<char>) -> Option<Seq<char>>;

/// The `href` attribute of a serialised result anchor, if it carries one.
pub uninterp spec fn anchor_href_of(anchor: Seq<char>) -> Option<Seq<char>>;

/// The first text node of a serialised result anchor, if it holds any text.
pub uninterp spec fn anchor_title_of(anchor: Seq<char>) -> Option<Seq<char>>;

/// The concatenated text nodes of the first snippet element inside a result
/// body, if a snippet element is there.
pub uninterp spec fn snippet_text_of(body: Seq<char>) -> Option<Seq<char>>;

/// Relies on scraper's Html::parse_fragment, Selector::parse, Html::select
/// and ElementRef::html: hands back the first element matching the organic
/// result-body pattern, serialised, all a function of the document text.
#[verifier::external_body]
fn scrape_result_body(html: &str) -> (r: Option<String>)
    ensures
        r.deep_view() == result_body_of(html@),
{
    let sel = Selector::parse(r#"div[class="links_main links_deep result__body"]"#).unwrap();
    Html::parse_fragment(html).select(&sel).next().map(|e| e.html())
}

/// Relies on scraper's Html::parse_fragment, Selector::parse, Html::select
/// and ElementRef::html: hands back the first result anchor of the fragment,
/// serialised, a function of the fragment text alone.
#[verifier::external_body]
fn scrape_result_anchor(body: &str) -> (r: Option<String>)
    ensures
        r.deep_view() == result_anchor_of(body@),
{
    let sel = Selector::parse(r#"a[class="result__a"]"#).unwrap();
    Html::parse_fragment(body).select(&sel).next().map(|e| e.html())
}

/// Relies on scraper's Html::parse_fragment, Selector::parse, Html::select
/// and ElementRef::attr: reads the `href` attribute of the fragment's result
/// anchor, a function of the fragment text alone.
#[verifier::external_body]
fn scrape_anchor_href(anchor: &str) -> (r: Option<String>)
    ensures
        r.deep_view() == anchor_href_of(anchor@),
{
    let sel = Selector::parse(r#"a[class="result__a"]"#).unwrap();
    Html::parse_fragment(anchor).select(&sel).next().and_then(|e| e.attr("href")).map(
        |h| h.to_string(),
    )
}

/// Relies on scraper's Html::parse_fragment, Selector::parse, Html::select
/// and ElementRef::text: reads the first text node of the fragment's result
/// anchor, a function of the fragment text alone.
#[verifier::external_body]
fn scrape_anchor_title(anchor: &str) -> (r: Option<String>)
    ensures
        r.deep_view() == anchor_title_of(anchor@),
{
    let sel = Selector::parse(r#"a[class="result__a"]"#).unwrap();
    Html::parse_fragment(anchor).select(&sel).next().and_then(|e| e.text().next()).map(
        |t| t.to_string(),
    )
}

/// Relies on scraper's Html::parse_fragment, Selector::parse, Html::select
/// and ElementRef::text: concatenates, without separator, the text nodes of
/// the fragment's first snippet element, a function of the fragment text.
#[verifier::external_body]
fn scrape_snippet_text(body: &str) -> (r: Option<String>)
    ensures
        r.deep_view() == snippet_text_of(body@),
{
    let sel = Selector::parse(r#"a[class="result__snippet"]"#).unwrap();
    Html::parse_fragment(body).select(&sel).next().map(
        |e| e.text().collect::<Vec<_>>().join(""),
    )
}

/// What extraction yields on a given document: either the title, canonical
/// URL and snippet of the first organic result, or the first stage at which
/// an expected piece of markup is missing. Stages are tried in the fixed
/// order container, anchor, href, title, snippet.
pub open spec fn spec_extract(h: Seq<char>) -> Result<
    (Seq<char>, Seq<char>, Seq<char>),
    ExtractError,
> {
    match result_body_of(h) {
        None => Err(ExtractError::ContainerNotFound),
        Some(body) => match result_anchor_of(body) {
            None => Err(ExtractError::AnchorNotFound),
            Some(anchor) => match anchor_href_of(anchor) {
                None => Err(ExtractError::HrefMissing),
                Some(href) => match anchor_title_of(anchor) {
                    None => Err(ExtractError::TitleMissing),
                    Some(title) => match snippet_text_of(body) {
                        None => Err(ExtractError::SnippetNotFound),
                        Some(content) => Ok((title, canonical_of(href), content)),
                    },
                },
            },
        },
    }
}

/// How an extraction result relates to the document it came from.
pub open spec fn extract_matches(h: Seq<char>, r: Result<ScrapeResponse, ExtractError>) -> bool {
    match spec_extract(h) {
        Ok(parts) => r is Ok && r->Ok_0.title@ == parts.0 && r->Ok_0.url@ == parts.1
            && r->Ok_0.content@ == parts.2,
        Err(e) => r == Result::<ScrapeResponse, ExtractError>::Err(e),
    }
}

/// Extract the first organic result of an HTML results page: its anchor text
/// as the title, its canonical destination URL, and its snippet text as the
/// content. Each missing piece of markup is reported as its own error.
pub fn extract_first_result(html: &str) -> (r: Result<ScrapeResponse, ExtractError>)
    ensures
        extract_matches(html@, r),
{
    let body = match scrape_result_body(html) {
        Some(b) => b,
        None => {
            return Err(ExtractError::ContainerNotFound);
        },
    };
    let anchor = match scrape_result_anchor(body.as_str()) {
        Some(a) => a,
        None => {
            return Err(ExtractError::AnchorNotFound);
        },
    };
    let href = match scrape_anchor_href(anchor.as_str()) {
        Some(h) => h,
        None => {
            return Err(ExtractError::HrefMissing);
        },
    };
    let title = match scrape_anchor_title(anchor.as_str()) {
        Some(t) => t,
        None => {
            return Err(ExtractError::TitleMissing);
        },
    };
    let content = match scrape_snippet_text(body.as_str()) {
        Some(c) => c,
        None => {
            return Err(ExtractError::SnippetNotFound);
        },
    };
    let url = canonical_url(href.as_str());
    Ok(ScrapeResponse::new(title, url, content))
}

/// Extraction is idempotent: two results taken from the same document text
/// agree — same success or the same stage error, and on success the same
/// title, canonical URL and content.
pub proof fn lemma_extract_deterministic(
    h: Seq<char>,
    r1: Result<ScrapeResponse, ExtractError>,
    r2: Result<ScrapeResponse, ExtractError>,
)
    requires
        extract_matches(h, r1),
        extract_matches(h, r2),
    ensures
        r1 is Ok <==> r2 is Ok,
        r1 is Ok ==> r1->Ok_0.title@ == r2->Ok_0.title@ && r1->Ok_0.url@ == r2->Ok_0.url@
            && r1->Ok_0.content@ == r2->Ok_0.content@,
        r1 is Err ==> r1 == r2,
{
}

} // verus!
