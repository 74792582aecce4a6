//! Sizes of releases and artifacts.
use vstd::prelude::*;
use crate::element::Element;
use crate::error::{ParseError, ParseErrorView};
use crate::text::{bounded_decimal, parse_u64, str_eq};
use crate::views::result_view;
use crate::model::{lemma_same_attribute, lemma_same_text};

verus! {

/// Defines the download and installed size of a `Component` or `Artifact`.
#[derive(Clone, Copy, Debug, PartialEq, Eq, Structural)]
#[non_exhaustive]
pub enum Size {
    /// The downloaded size in bytes.
    Download(u64),
    /// The installed size in bytes.
    Installed(u64),
}

impl View for Size {
    type V = Size;

    open spec fn view(&self) -> Size {
        *self
    }
}

impl Size {
    /// The size that a `size` element denotes: its text is the number of
    /// bytes, its `type` attribute says of what; both are required.
    pub open spec fn spec_try_from(e: Element) -> Result<Size, ParseErrorView> {
        match e.spec_text() {
            None => Err(ParseErrorView::MissingValue("size"@)),
            Some(val) => match e.spec_attribute("type"@) {
                None => Err(ParseErrorView::MissingAttribute("type"@, "size"@)),
                Some(t) => if t == "download"@ {
                    match bounded_decimal(val, u64::MAX as nat) {
                        Some(n) => Ok(Size::Download(n as u64)),
                        None => Err(ParseErrorView::InvalidValue(val, "download"@, "size"@)),
                    }
                } else if t == "installed"@ {
                    match bounded_decimal(val, u64::MAX as nat) {
                        Some(n) => Ok(Size::Installed(n as u64)),
                        None => Err(ParseErrorView::InvalidValue(val, "installed"@, "size"@)),
                    }
                } else {
                    Err(ParseErrorView::InvalidValue(t, "type"@, "size"@))
                },
            },
        }
    }
}

impl Size {
    /// Reads the size that `e` denotes: see [`Size::spec_try_from`].
    pub fn try_from(e: &Element) -> (r: Result<Self, ParseError>)
        ensures
            result_view(r) == Size::spec_try_from(*e),
    {
        let val = match e.get_text() {
            Some(v) => v,
            None => { return Err(ParseError::missing_value("size")); },
        };
        let t = match e.attribute("type") {
            Some(t) => t.as_str(),
            None => { return Err(ParseError::missing_attribute("type", "size")); },
        };
        if str_eq(t, "download") {
            match parse_u64(val.as_str()) {
                Some(n) => Ok(Size::Download(n)),
                None => Err(ParseError::invalid_value(val.as_str(), "download", "size")),
            }
        } else if str_eq(t, "installed") {
            match parse_u64(val.as_str()) {
                Some(n) => Ok(Size::Installed(n)),
                None => Err(ParseError::invalid_value(val.as_str(), "installed", "size")),
            }
        } else {
            Err(ParseError::invalid_value(t, "type", "size"))
        }
    }
}

/// Elements with the same model denote the same size.
pub proof fn lemma_size_model_decides(a: Element, b: Element)
    requires
        a.model() == b.model(),
    ensures
        Size::spec_try_from(a) == Size::spec_try_from(b),
{
    lemma_same_text(a, b);
    lemma_same_attribute(a, b, "type"@);
}

} // verus!
