//! Translation domains.
use vstd::prelude::*;
use crate::element::Element;
use crate::error::{ParseError, ParseErrorView};
use crate::text::str_eq;
use crate::views::result_view;
use crate::model::{lemma_same_attribute, lemma_same_text};

verus! {

/// Defines the possible translation domains.
#[derive(Clone, Debug, PartialEq)]
#[non_exhaustive]
pub enum Translation {
    /// The component uses gettext for translations.
    Gettext(String),
    /// The component uses Qt for translations.
    Qt(String),
    /// The component uses a translation system that is not known here.
    Unknown,
}

/// A [`Translation`] with its string as a character sequence.
pub enum TranslationView {
    Gettext(Seq<char>),
    Qt(Seq<char>),
    Unknown,
}

impl View for Translation {
    type V = TranslationView;

    open spec fn view(&self) -> TranslationView {
        match *self {
            Translation::Gettext(v) => TranslationView::Gettext(v@),
            Translation::Qt(v) => TranslationView::Qt(v@),
            Translation::Unknown => TranslationView::Unknown,
        }
    }
}

impl Translation {
    /// The translation domain that a `translation` element denotes: its text
    /// is the domain, empty where it has none; its `type` attribute, which is
    /// required, names the system. A system that is not known gives
    /// `Unknown`.
    pub open spec fn spec_try_from(e: Element) -> Result<TranslationView, ParseErrorView> {
        match e.spec_attribute("type"@) {
            None => Err(ParseErrorView::MissingAttribute("type"@, "translation"@)),
            Some(t) => if t == "gettext"@ {
                Ok(TranslationView::Gettext(e.spec_text_or_empty()))
            } else if t == "qt"@ {
                Ok(TranslationView::Qt(e.spec_text_or_empty()))
            } else {
                Ok(TranslationView::Unknown)
            },
        }
    }
}

impl Translation {
    /// Reads the translation domain that `e` denotes: see [`Translation::spec_try_from`].
    pub fn try_from(e: &Element) -> (r: Result<Self, ParseError>)
        ensures
            result_view(r) == Translation::spec_try_from(*e),
    {
        let val = e.text_or_empty();
        let t = match e.attribute("type") {
            Some(t) => t.as_str(),
            None => { return Err(ParseError::missing_attribute("type", "translation")); },
        };
        if str_eq(t, "gettext") {
            Ok(Translation::Gettext(val))
        } else if str_eq(t, "qt") {
            Ok(Translation::Qt(val))
        } else {
            Ok(Translation::Unknown)
        }
    }
}

/// Elements with the same model denote the same translation domain.
pub proof fn lemma_translation_model_decides(a: Element, b: Element)
    requires
        a.model() == b.model(),
    ensures
        Translation::spec_try_from(a) == Translation::spec_try_from(b),
{
    lemma_same_text(a, b);
    lemma_same_attribute(a, b, "type"@);
}

} // verus!
