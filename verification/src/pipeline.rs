//! Orchestration of the two-stage fallback chain, as pure decisions: given
//! what a stage returned, choose the next step or the final outcome. The
//! caller performs the network calls and feeds their results back in.

use vstd::prelude::*;

use crate::answer::StructuredAnswer;
use crate::extract::ExtractError;
use crate::scrape::ScrapeResponse;

verus! {

/// A failure of the instant-answer stage. Both variants are system-health
/// problems and are never downgraded to an empty outcome.
#[derive(Debug, Clone, PartialEq, Eq)]
pub enum SearchError {
    /// The network call itself failed.
    Transport,
    /// The response body did not match the expected schema.
    Deserialization,
}

/// A failure of the scrape stage.
#[derive(Debug, Clone, PartialEq, Eq)]
pub enum ScrapeError {
    /// The network call itself failed.
    Transport,
    /// A specific expected element or attribute was missing from the markup.
    Extraction(ExtractError),
}

/// The pipeline's final outcome: exactly one of a structured answer, a
/// scraped result, or the explicit "no result" indicator.
#[derive(Debug, Clone, PartialEq, Eq)]
pub enum SearchOutcome {
    Answer(StructuredAnswer),
    Scraped(ScrapeResponse),
    NoResult,
}

/// What to do after the instant-answer stage: finish with an outcome, try the
/// scrape fallback, or surface the stage's failure.
#[derive(Debug, Clone, PartialEq, Eq)]
pub enum InstantStep {
    Done(SearchOutcome),
    Fallback,
    Fail(SearchError),
}

/// The decision taken after the instant-answer stage returns.
pub open spec fn spec_after_instant(res: Result<StructuredAnswer, SearchError>) -> InstantStep {
    match res {
        Result::Err(e) => InstantStep::Fail(e),
        Result::Ok(a) => if a.spec_is_empty() {
            InstantStep::Fallback
        } else {
            InstantStep::Done(SearchOutcome::Answer(a))
        },
    }
}

/// Decide the next step from what the instant-answer stage returned: an error
/// propagates, a non-empty answer resolves the pipeline, and only an empty
/// answer triggers the scrape fallback.
pub fn after_instant(res: Result<StructuredAnswer, SearchError>) -> (s: InstantStep)
    ensures
        s == spec_after_instant(res),
{
    match res {
        Err(e) => InstantStep::Fail(e),
        Ok(a) => {
            if a.is_empty() {
                InstantStep::Fallback
            } else {
                InstantStep::Done(SearchOutcome::Answer(a))
            }
        },
    }
}

/// The outcome settled after the scrape stage returns.
pub open spec fn spec_after_scrape(res: Result<ScrapeResponse, ScrapeError>) -> SearchOutcome {
    match res {
        Result::Ok(r) => if r.spec_is_usable() {
            SearchOutcome::Scraped(r)
        } else {
            SearchOutcome::NoResult
        },
        Result::Err(_) => SearchOutcome::NoResult,
    }
}

/// Settle the pipeline's outcome from what the scrape stage returned: a
/// usable result is reported as such; the sentinel, any partial result and
/// any scrape failure all degrade to the "no result" outcome, never to a
/// top-level pipeline failure.
pub fn after_scrape(res: Result<ScrapeResponse, ScrapeError>) -> (o: SearchOutcome)
    ensures
        o == spec_after_scrape(res),
{
    match res {
        Ok(r) => {
            if r.is_usable() {
                SearchOutcome::Scraped(r)
            } else {
                SearchOutcome::NoResult
            }
        },
        Err(_) => SearchOutcome::NoResult,
    }
}

/// An answer with non-empty abstract text resolves the pipeline at once: the
/// outcome is that structured answer, and the scrape fallback is never chosen.
pub proof fn lemma_answer_resolves_without_fallback(a: StructuredAnswer)
    requires
        a.abstract_text@.len() > 0,
    ensures
        spec_after_instant(Result::Ok(a)) == InstantStep::Done(SearchOutcome::Answer(a)),
        spec_after_instant(Result::Ok(a)) != InstantStep::Fallback,
{
}

/// When the instant answer has neither abstract text nor related topics, the
/// decision is exactly the scrape fallback.
pub proof fn lemma_empty_answer_falls_back(a: StructuredAnswer)
    requires
        a.abstract_text@.len() == 0,
        a.related_topics@.len() == 0,
    ensures
        spec_after_instant(Result::Ok(a)) == InstantStep::Fallback,
{
}

/// A transport or deserialization failure of the instant-answer stage is
/// surfaced as a pipeline failure; the scrape fallback is never attempted.
pub proof fn lemma_instant_error_propagates(e: SearchError)
    ensures
        spec_after_instant(Result::Err(e)) == InstantStep::Fail(e),
        spec_after_instant(Result::Err(e)) != InstantStep::Fallback,
{
}

/// A scrape result whose fields are not all non-empty — the sentinel in
/// particular — settles the pipeline on "no result", never on success.
pub proof fn lemma_unusable_scrape_is_no_result(r: ScrapeResponse)
    requires
        !r.spec_is_usable(),
    ensures
        spec_after_scrape(Result::Ok(r)) == SearchOutcome::NoResult,
{
}

/// A scrape failure degrades to the "no result" outcome instead of becoming a
/// pipeline failure.
pub proof fn lemma_scrape_error_degrades(e: ScrapeError)
    ensures
        spec_after_scrape(Result::Err(e)) == SearchOutcome::NoResult,
{
}

} // verus!
