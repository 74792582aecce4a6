//! Languages that a component is translated into.
use vstd::prelude::*;
use crate::element::Element;
use crate::error::{ParseError, ParseErrorView};
use crate::text::{bounded_decimal, parse_u32};
use crate::views::result_view;
use crate::walk::FromElement;
use crate::model::{lemma_same_attribute, lemma_same_text};

verus! {

/// Defines how well a language is supported by the component.
#[derive(Clone, Debug, PartialEq)]
pub struct Language {
    /// The percentage of translation completion.
    pub percentage: Option<u32>,
    /// The language locale.
    pub locale: String,
}

/// A [`Language`] with its locale as a character sequence.
pub struct LanguageView {
    pub percentage: Option<u32>,
    pub locale: Seq<char>,
}

impl View for Language {
    type V = LanguageView;

    open spec fn view(&self) -> LanguageView {
        LanguageView { percentage: self.percentage, locale: self.locale@ }
    }
}

impl Default for Language {
    fn default() -> (r: Self)
        ensures
            r@ == (LanguageView { percentage: None, locale: Seq::empty() }),
    {
        Language { percentage: None, locale: String::new() }
    }
}

impl Language {
    /// The language that a `lang` element denotes: its text, which is
    /// required, is the locale; its `percentage` attribute is a number where
    /// it is there.
    pub open spec fn spec_try_from(e: Element) -> Result<LanguageView, ParseErrorView> {
        match e.spec_text() {
            None => Err(ParseErrorView::MissingValue("language"@)),
            Some(locale) => match e.spec_attribute("percentage"@) {
                None => Ok(LanguageView { percentage: None, locale }),
                Some(p) => match bounded_decimal(p, u32::MAX as nat) {
                    Some(n) => Ok(LanguageView { percentage: Some(n as u32), locale }),
                    None => Err(ParseErrorView::InvalidValue(p, "percentage"@, "language"@)),
                },
            },
        }
    }
}

impl Language {
    /// Reads the language that `e` denotes: see [`Language::spec_try_from`].
    pub fn try_from(e: &Element) -> (r: Result<Self, ParseError>)
        ensures
            result_view(r) == Language::spec_try_from(*e),
    {
        let locale = match e.get_text() {
            Some(v) => v,
            None => { return Err(ParseError::missing_value("language")); },
        };
        match e.attribute("percentage") {
            None => Ok(Language { percentage: None, locale }),
            Some(p) => match parse_u32(p.as_str()) {
                Some(n) => Ok(Language { percentage: Some(n), locale }),
                None => Err(ParseError::invalid_value(p.as_str(), "percentage", "language")),
            },
        }
    }
}

impl FromElement for Language {
    open spec fn spec_from_element(e: Element) -> Result<LanguageView, ParseErrorView> {
        Language::spec_try_from(e)
    }

    fn from_element(e: &Element) -> (r: Result<Self, ParseError>) {
        Language::try_from(e)
    }

    proof fn lemma_model_decides(a: Element, b: Element) {
        lemma_same_text(a, b);
        lemma_same_attribute(a, b, "percentage"@);
    }
}

} // verus!
