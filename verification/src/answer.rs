//! The instant-answer stage's structured result, reduced to the plain fields
//! the pipeline reads: heading, abstract, source URL, image path and the
//! ordered related-topic entries.

use vstd::prelude::*;
use vstd::string::StringExecFns;

verus! {

/// A leaf related-topic entry: a destination URL with its display text.
#[derive(Debug, Clone, PartialEq, Eq)]
pub struct RelatedTopic {
    pub first_url: String,
    pub text: String,
}

/// One entry of the related-topic sequence: either a leaf topic result or a
/// category grouping, which the pipeline skips but still counts as presence.
#[derive(Debug, Clone, PartialEq, Eq)]
pub enum RelatedEntry {
    Topic(RelatedTopic),
    Category,
}

/// A structured instant answer. The abstract text and the image path may be
/// empty; the related-topic sequence may be empty.
#[derive(Debug, Clone, PartialEq, Eq)]
pub struct StructuredAnswer {
    pub heading: String,
    pub abstract_text: String,
    pub abstract_url: String,
    pub image: String,
    pub related_topics: Vec<RelatedEntry>,
}

impl StructuredAnswer {
    /// An answer is empty when it has no abstract text and no related topics;
    /// only then must the caller fall back to scraping.
    pub open spec fn spec_is_empty(&self) -> bool {
        self.abstract_text@.len() == 0 && self.related_topics@.len() == 0
    }

    pub fn is_empty(&self) -> (r: bool)
        ensures
            r == self.spec_is_empty(),
    {
        self.abstract_text.as_str().is_empty() && self.related_topics.len() == 0
    }

    /// Whether the answer carries an image to render alongside the abstract.
    pub open spec fn spec_has_image(&self) -> bool {
        self.image@.len() > 0
    }

    pub fn has_image(&self) -> (r: bool)
        ensures
            r == self.spec_has_image(),
    {
        !self.image.as_str().is_empty()
    }

    /// The absolute URL of the answer's image: the image path, which the API
    /// serves relative to its site root, resolved against that root. An
    /// answer without an image has no image URL.
    pub open spec fn spec_image_url(&self) -> Option<Seq<char>> {
        if self.image@.len() == 0 {
            None
        } else {
            Some("https://duckduckgo.com/"@ + self.image@)
        }
    }

    pub fn image_url(&self) -> (r: Option<String>)
        ensures
            r.deep_view() == self.spec_image_url(),
    {
        if self.has_image() {
            let mut u = "https://duckduckgo.com/".to_owned();
            u.append(self.image.as_str());
            Some(u)
        } else {
            None
        }
    }
}

} // verus!
