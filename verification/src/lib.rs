//! A small search-resolution library: a structured instant-answer stage with
//! an HTML-scraping fallback, normalised into a single outcome type.

use vstd::prelude::*;

pub mod answer;
pub mod extract;
pub mod link;
pub mod pipeline;
pub mod scrape;

verus! {

/// Client identifier sent to the instant-answer API, as its usage policy asks.
pub const CLIENT_ID: &'static str = "Mozilla/5.0 (X11; Linux x86_64) AppleWebKit/537.36 (KHTML, like Gecko) Chrome/51.0.2704.103 Safari/537.36";

/// User agent sent on scrape requests; the results page may reject empty agents.
pub const USER_AGENT: &'static str = "Mozilla/5.0 (X11; Linux x86_64) AppleWebKit/537.36 (KHTML, like Gecko) Chrome/51.0.2704.103 Safari/537.36";

/// Base URL of the search engine's HTML results page, used by the scrape stage.
pub const DUCKDUCKGO_HTML_URL: &'static str = "https://html.duckduckgo.com/html/";

/// Base URL of the search engine's instant-answer endpoint.
pub const DUCKDUCKGO_API_URL: &'static str = "https://api.duckduckgo.com/";

} // verus!
