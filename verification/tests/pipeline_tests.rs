use ddg_search::answer::{RelatedEntry, RelatedTopic, StructuredAnswer};
use ddg_search::pipeline::{
    after_instant, after_scrape, InstantStep, ScrapeError, SearchError, SearchOutcome,
};
use ddg_search::scrape::ScrapeResponse;
use ddg_search::extract::ExtractError;

fn answer(abstract_text: &str, image: &str, topics: Vec<RelatedEntry>) -> StructuredAnswer {
    StructuredAnswer {
        heading: "Discord".to_string(),
        abstract_text: abstract_text.to_string(),
        abstract_url: "https://discord.com".to_string(),
        image: image.to_string(),
        related_topics: topics,
    }
}

#[test]
fn non_empty_abstract_resolves_without_fallback() {
    let a = answer("Discord is a VoIP platform", "", vec![]);
    let step = after_instant(Ok(a.clone()));
    assert_eq!(step, InstantStep::Done(SearchOutcome::Answer(a)));
}

#[test]
fn answer_without_image_reports_none_to_render() {
    let a = answer("Discord is a VoIP platform", "", vec![]);
    match after_instant(Ok(a)) {
        InstantStep::Done(SearchOutcome::Answer(ans)) => {
            assert_eq!(ans.heading, "Discord");
            assert_eq!(ans.abstract_text, "Discord is a VoIP platform");
            assert_eq!(ans.abstract_url, "https://discord.com");
            assert!(!ans.has_image());
        }
        other => panic!("expected a structured answer, got {:?}", other),
    }
}

#[test]
fn answer_with_image_reports_it() {
    let a = answer("Discord is a VoIP platform", "/i/discord.png", vec![]);
    match after_instant(Ok(a)) {
        InstantStep::Done(SearchOutcome::Answer(ans)) => assert!(ans.has_image()),
        other => panic!("expected a structured answer, got {:?}", other),
    }
}

#[test]
fn empty_abstract_and_topics_triggers_fallback() {
    let a = answer("", "", vec![]);
    assert_eq!(after_instant(Ok(a)), InstantStep::Fallback);
}

#[test]
fn related_topics_alone_keep_the_answer() {
    let topic = RelatedEntry::Topic(RelatedTopic {
        first_url: "https://duckduckgo.com/Discord".to_string(),
        text: "Discord - a chat service".to_string(),
    });
    let a = answer("", "", vec![topic]);
    let step = after_instant(Ok(a.clone()));
    assert_eq!(step, InstantStep::Done(SearchOutcome::Answer(a)));
}

#[test]
fn category_entries_count_as_presence() {
    let a = answer("", "", vec![RelatedEntry::Category]);
    let step = after_instant(Ok(a.clone()));
    assert_eq!(step, InstantStep::Done(SearchOutcome::Answer(a)));
}

#[test]
fn image_url_resolves_relative_path() {
    let a = answer("Discord is a VoIP platform", "/i/discord.png", vec![]);
    assert_eq!(
        a.image_url(),
        Some("https://duckduckgo.com//i/discord.png".to_string())
    );
    let b = answer("Discord is a VoIP platform", "", vec![]);
    assert_eq!(b.image_url(), None);
}

#[test]
fn transport_error_propagates_without_fallback() {
    assert_eq!(
        after_instant(Err(SearchError::Transport)),
        InstantStep::Fail(SearchError::Transport)
    );
}

#[test]
fn deserialization_error_propagates_without_fallback() {
    assert_eq!(
        after_instant(Err(SearchError::Deserialization)),
        InstantStep::Fail(SearchError::Deserialization)
    );
}

#[test]
fn usable_scrape_result_is_the_outcome() {
    let r = ScrapeResponse::new(
        "Example Domain".to_string(),
        "https://example.com/page".to_string(),
        "Some snippet.".to_string(),
    );
    assert_eq!(
        after_scrape(Ok(r.clone())),
        SearchOutcome::Scraped(r)
    );
}

#[test]
fn no_results_page_is_recognised_as_empty() {
    let r = ScrapeResponse::new(
        "No results - DuckDuckGo".to_string(),
        "".to_string(),
        "".to_string(),
    );
    assert_eq!(after_scrape(Ok(r)), SearchOutcome::NoResult);
}

#[test]
fn sentinel_default_is_not_a_success() {
    let r = ScrapeResponse::default();
    assert_eq!(r.title, "No result found!");
    assert_eq!(r.url, "");
    assert_eq!(r.content, "");
    assert!(!r.is_usable());
    assert_eq!(after_scrape(Ok(r)), SearchOutcome::NoResult);
}

#[test]
fn scrape_errors_degrade_to_no_result() {
    assert_eq!(
        after_scrape(Err(ScrapeError::Transport)),
        SearchOutcome::NoResult
    );
    assert_eq!(
        after_scrape(Err(ScrapeError::Extraction(ExtractError::ContainerNotFound))),
        SearchOutcome::NoResult
    );
}

#[test]
fn scrape_response_new_keeps_its_fields() {
    let r = ScrapeResponse::new(
        "t".to_string(),
        "u".to_string(),
        "c".to_string(),
    );
    assert_eq!(r.title, "t");
    assert_eq!(r.url, "u");
    assert_eq!(r.content, "c");
}

#[test]
fn configuration_constants_are_fixed() {
    assert_eq!(
        ddg_search::DUCKDUCKGO_HTML_URL,
        "https://html.duckduckgo.com/html/"
    );
    assert_eq!(ddg_search::DUCKDUCKGO_API_URL, "https://api.duckduckgo.com/");
    assert!(!ddg_search::CLIENT_ID.is_empty());
    assert!(!ddg_search::USER_AGENT.is_empty());
}
