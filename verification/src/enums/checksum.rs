//! Checksums of artifacts.
use vstd::prelude::*;
use crate::element::Element;
use crate::error::{ParseError, ParseErrorView};
use crate::text::str_eq;
use crate::views::result_view;
use crate::model::{lemma_same_attribute, lemma_same_text};

verus! {

/// Defines a checksum to validate the integrity of an artifact.
#[derive(Debug, PartialEq)]
#[non_exhaustive]
pub enum Checksum {
    /// A checksum computed using `sha1`.
    Sha1(String),
    /// A checksum computed using `sha256`.
    Sha256(String),
    /// A checksum computed using `blake2b`.
    Blake2b(String),
    /// A checksum computed using `blake2s`.
    Blake2s(String),
}

/// A [`Checksum`] with its string as a character sequence.
pub enum ChecksumView {
    Sha1(Seq<char>),
    Sha256(Seq<char>),
    Blake2b(Seq<char>),
    Blake2s(Seq<char>),
}

impl View for Checksum {
    type V = ChecksumView;

    open spec fn view(&self) -> ChecksumView {
        match *self {
            Checksum::Sha1(v) => ChecksumView::Sha1(v@),
            Checksum::Sha256(v) => ChecksumView::Sha256(v@),
            Checksum::Blake2b(v) => ChecksumView::Blake2b(v@),
            Checksum::Blake2s(v) => ChecksumView::Blake2s(v@),
        }
    }
}

impl Checksum {
    /// The checksum that a `checksum` element denotes: its text is the
    /// value, its `type` attribute names the algorithm; both are required.
    pub open spec fn spec_try_from(e: Element) -> Result<ChecksumView, ParseErrorView> {
        match e.spec_text() {
            None => Err(ParseErrorView::MissingValue("checksum"@)),
            Some(val) => match e.spec_attribute("type"@) {
                None => Err(ParseErrorView::MissingAttribute("type"@, "checksum"@)),
                Some(t) => if t == "sha1"@ {
                    Ok(ChecksumView::Sha1(val))
                } else if t == "sha256"@ {
                    Ok(ChecksumView::Sha256(val))
                } else if t == "blake2b"@ {
                    Ok(ChecksumView::Blake2b(val))
                } else if t == "blake2s"@ {
                    Ok(ChecksumView::Blake2s(val))
                } else {
                    Err(ParseErrorView::InvalidValue(t, "type"@, "checksum"@))
                },
            },
        }
    }
}

impl Checksum {
    /// Reads the checksum that `e` denotes: see [`Checksum::spec_try_from`].
    pub fn try_from(e: &Element) -> (r: Result<Self, ParseError>)
        ensures
            result_view(r) == Checksum::spec_try_from(*e),
    {
        let val = match e.get_text() {
            Some(v) => v,
            None => { return Err(ParseError::missing_value("checksum")); },
        };
        let t = match e.attribute("type") {
            Some(t) => t.as_str(),
            None => { return Err(ParseError::missing_attribute("type", "checksum")); },
        };
        if str_eq(t, "sha1") {
            Ok(Checksum::Sha1(val))
        } else if str_eq(t, "sha256") {
            Ok(Checksum::Sha256(val))
        } else if str_eq(t, "blake2b") {
            Ok(Checksum::Blake2b(val))
        } else if str_eq(t, "blake2s") {
            Ok(Checksum::Blake2s(val))
        } else {
            Err(ParseError::invalid_value(t, "type", "checksum"))
        }
    }
}

/// Elements with the same model denote the same checksum.
pub proof fn lemma_checksum_model_decides(a: Element, b: Element)
    requires
        a.model() == b.model(),
    ensures
        Checksum::spec_try_from(a) == Checksum::spec_try_from(b),
{
    lemma_same_text(a, b);
    lemma_same_attribute(a, b, "type"@);
}

impl Clone for Checksum {
    fn clone(&self) -> (r: Self)
        ensures
            r == *self,
    {
        match self {
            Checksum::Sha1(v) => Checksum::Sha1(v.clone()),
            Checksum::Sha256(v) => Checksum::Sha256(v.clone()),
            Checksum::Blake2b(v) => Checksum::Blake2b(v.clone()),
            Checksum::Blake2s(v) => Checksum::Blake2s(v.clone()),
        }
    }
}

} // verus!
