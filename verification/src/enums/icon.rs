//! Icons of components.
use vstd::prelude::*;
use std::path::PathBuf;
use url::Url;
use crate::element::Element;
use crate::error::{ParseError, ParseErrorView};
use crate::links::{clone_url, read_url, url_parse};
use crate::paths::{path_from, path_of};
use crate::text::{bounded_decimal, parse_u32, str_eq};
use crate::views::result_view;
use crate::model::{lemma_same_attribute, lemma_same_text};

verus! {

/// Defines a component icon.
#[derive(Debug, PartialEq)]
pub enum Icon {
    /// Icon loaded from the stock.
    Stock(String),
    /// Icon cached.
    Cached {
        /// The icon path.
        path: PathBuf,
        /// The icon width.
        width: Option<u32>,
        /// The icon height.
        height: Option<u32>,
    },
    /// Icon loaded from a remote URL.
    Remote {
        /// The icon URL.
        url: Url,
        /// The icon width.
        width: Option<u32>,
        /// The icon height.
        height: Option<u32>,
    },
    /// Icon loaded from a file.
    Local {
        /// The icon path.
        path: PathBuf,
        /// The icon width.
        width: Option<u32>,
        /// The icon height.
        height: Option<u32>,
    },
}

/// An [`Icon`] with its string as a character sequence.
pub enum IconView {
    Stock(Seq<char>),
    Cached { path: PathBuf, width: Option<u32>, height: Option<u32> },
    Remote { url: Url, width: Option<u32>, height: Option<u32> },
    Local { path: PathBuf, width: Option<u32>, height: Option<u32> },
}

impl View for Icon {
    type V = IconView;

    open spec fn view(&self) -> IconView {
        match *self {
            Icon::Stock(name) => IconView::Stock(name@),
            Icon::Cached { path, width, height } => IconView::Cached { path, width, height },
            Icon::Remote { url, width, height } => IconView::Remote { url, width, height },
            Icon::Local { path, width, height } => IconView::Local { path, width, height },
        }
    }
}

/// The number of pixels that attribute `name` of `e` gives: `None` where the
/// attribute is missing or is no number.
pub open spec fn lenient_dimension(e: Element, name: Seq<char>) -> Option<u32> {
    match e.spec_attribute(name) {
        Some(v) => match bounded_decimal(v, u32::MAX as nat) {
            Some(n) => Some(n as u32),
            None => None,
        },
        None => None,
    }
}

/// The number of pixels that attribute `name` of `e` gives: `None` where the
/// attribute is missing or is no number.
pub fn read_lenient_dimension(e: &Element, name: &str) -> (r: Option<u32>)
    ensures
        r == lenient_dimension(*e, name@),
{
    match e.attribute(name) {
        Some(v) => parse_u32(v.as_str()),
        None => None,
    }
}

impl Icon {
    /// The icon that an `icon` element denotes. Its text, which is required,
    /// is the name, path or address. Its `type` attribute names the kind; an
    /// icon without one, or with one that is not known, is a local icon.
    /// A width or height that is no number counts as missing.
    pub open spec fn spec_try_from(e: Element) -> Result<IconView, ParseErrorView> {
        match e.spec_text() {
            None => Err(ParseErrorView::MissingValue("icon"@)),
            Some(val) => {
                let kind = match e.spec_attribute("type"@) {
                    Some(t) => t,
                    None => "local"@,
                };
                let width = lenient_dimension(e, "width"@);
                let height = lenient_dimension(e, "height"@);
                if kind == "stock"@ {
                    Ok(IconView::Stock(val))
                } else if kind == "cached"@ {
                    Ok(IconView::Cached { path: path_of(val), width, height })
                } else if kind == "remote"@ {
                    match url_parse(val) {
                        Ok(url) => Ok(IconView::Remote { url, width, height }),
                        Err(m) => Err(ParseErrorView::UrlParseError(m)),
                    }
                } else {
                    Ok(IconView::Local { path: path_of(val), width, height })
                }
            },
        }
    }
}

impl Icon {
    /// Reads the icon that `e` denotes: see [`Icon::spec_try_from`].
    pub fn try_from(e: &Element) -> (r: Result<Self, ParseError>)
        ensures
            result_view(r) == Icon::spec_try_from(*e),
    {
        let val = match e.get_text() {
            Some(v) => v,
            None => { return Err(ParseError::missing_value("icon")); },
        };
        let kind = match e.attribute("type") {
            Some(t) => t.as_str(),
            None => "local",
        };
        let width = read_lenient_dimension(e, "width");
        let height = read_lenient_dimension(e, "height");
        if str_eq(kind, "stock") {
            Ok(Icon::Stock(val))
        } else if str_eq(kind, "cached") {
            Ok(Icon::Cached { path: path_from(val), width, height })
        } else if str_eq(kind, "remote") {
            match read_url(val.as_str()) {
                Ok(url) => Ok(Icon::Remote { url, width, height }),
                Err(err) => Err(err),
            }
        } else {
            Ok(Icon::Local { path: path_from(val), width, height })
        }
    }
}

impl Clone for Icon {
    fn clone(&self) -> (r: Self)
        ensures
            r == *self,
    {
        match self {
            Icon::Stock(name) => Icon::Stock(name.clone()),
            Icon::Cached { path, width, height } => Icon::Cached {
                path: path.clone(),
                width: *width,
                height: *height,
            },
            Icon::Remote { url, width, height } => Icon::Remote {
                url: clone_url(url),
                width: *width,
                height: *height,
            },
            Icon::Local { path, width, height } => Icon::Local {
                path: path.clone(),
                width: *width,
                height: *height,
            },
        }
    }
}

/// Elements with the same model denote the same icon.
pub proof fn lemma_icon_model_decides(a: Element, b: Element)
    requires
        a.model() == b.model(),
    ensures
        Icon::spec_try_from(a) == Icon::spec_try_from(b),
{
    lemma_same_text(a, b);
    lemma_same_attribute(a, b, "type"@);
    lemma_same_attribute(a, b, "width"@);
    lemma_same_attribute(a, b, "height"@);
}

} // verus!
