//! The conditions under which a policy element applies to a request.

use crate::documents::{DocumentAndPath, RequestableDoc};
use crate::html::{compile_selector, first_match_attrs, query_attrs, selector_of};
use crate::pattern::{regex_error_message, regex_error_text, regex_matches, regex_source};
use crate::selector_text::engine_takes;
use html_editor::operation::Selector;
use regex::Regex;
use vstd::prelude::*;

verus! {

/// A test on a request. A condition does not change and can be evaluated on
/// any number of requests.
pub enum PaywallCondition {
    /// The pattern matches somewhere in the request path.
    HasRegexPath(Regex),
    /// The selector matches an element of the HTML document.
    MatchesCssSelector(Selector),
}

/// Why a condition could not be built.
#[derive(Debug)]
pub enum PaywallConditionError {
    /// The text is no pattern that can be compiled. It is carried unchanged,
    /// with the reason that the pattern engine gave.
    InvalidRegex { pattern: String, reason: String },
}

impl PaywallCondition {
    /// Whether the condition holds of `doc_and_path`. A selector can hold
    /// only of a document that has elements: of any other kind of document
    /// it does not hold.
    pub open spec fn holds(&self, doc_and_path: &DocumentAndPath) -> bool {
        match self {
            PaywallCondition::HasRegexPath(regex) => regex_matches(*regex, doc_and_path.path()),
            PaywallCondition::MatchesCssSelector(selector) => match doc_and_path.document() {
                RequestableDoc::HtmlNode(node) => first_match_attrs(node, *selector) is Some,
            },
        }
    }

    /// Whether `doc_and_path` meets the condition.
    pub fn is_paywalled(&self, doc_and_path: &DocumentAndPath) -> (paywalled: bool)
        ensures
            paywalled == self.holds(doc_and_path),
    {
        match self {
            PaywallCondition::HasRegexPath(regex) => regex.is_match(
                doc_and_path.get_url_path_as_str(),
            ),
            PaywallCondition::MatchesCssSelector(selector) => match doc_and_path.get_document() {
                RequestableDoc::HtmlNode(node) => query_attrs(node, selector).is_some(),
            },
        }
    }

    /// The condition for what came of compiling `pattern`: the compiled
    /// pattern as a path condition, or the refused text with the engine's
    /// reason.
    pub fn from_compiled_regex(
        pattern: &str,
        compiled: Result<Regex, regex::Error>,
    ) -> (result: Result<PaywallCondition, PaywallConditionError>)
        ensures
            match compiled {
                Ok(regex) => result matches Ok(PaywallCondition::HasRegexPath(kept)) && kept
                    == regex,
                Err(error) => result matches Err(
                    PaywallConditionError::InvalidRegex { pattern: refused, reason },
                ) && refused@ == pattern@ && reason@ == regex_error_message(error),
            },
    {
        match compiled {
            Ok(regex) => Ok(PaywallCondition::HasRegexPath(regex)),
            Err(error) => Err(
                PaywallConditionError::InvalidRegex {
                    pattern: pattern.to_owned(),
                    reason: regex_error_text(&error),
                },
            ),
        }
    }

    /// A path condition from the text of its pattern. Whether the text can be
    /// compiled is for the pattern engine to say.
    pub fn from_regex(pattern: &str) -> (result: Result<PaywallCondition, PaywallConditionError>)
        ensures
            result matches Ok(condition) ==> condition matches PaywallCondition::HasRegexPath(regex)
                && regex_source(regex) == pattern@,
            result matches Err(PaywallConditionError::InvalidRegex { pattern: refused, .. })
                ==> refused@ == pattern@,
    {
        PaywallCondition::from_compiled_regex(pattern, Regex::new(pattern))
    }

    /// A selector condition from the text of its selector. No text is
    /// refused: what a text in a form unknown to the selector engine matches
    /// is for the engine to say. On a few selectors beyond ASCII the engine
    /// stops the program; they are left out here, and
    /// `selector_engine_takes` tells which they are.
    pub fn from_css_selector(selector: &str) -> (condition: PaywallCondition)
        requires
            engine_takes(selector@),
        ensures
            condition matches PaywallCondition::MatchesCssSelector(compiled) && compiled
                == selector_of(selector@),
    {
        PaywallCondition::MatchesCssSelector(compile_selector(selector))
    }
}

} // verus!
