//! Public interfaces that a component provides.
use vstd::prelude::*;
use std::path::PathBuf;
use crate::app_id::AppId;
use crate::element::Element;
use crate::enums::kinds::FirmwareKind;
use crate::error::{ParseError, ParseErrorView};
use crate::paths::{path_from, path_of};
use crate::text::str_eq;
use crate::views::result_view;
use crate::walk::FromElement;
use crate::model::{lemma_same_attribute, lemma_same_text};

verus! {

/// Describes the public interfaces the component provides.
#[derive(Clone, Debug, PartialEq)]
#[non_exhaustive]
pub enum Provide {
    /// Shared library.
    Library(PathBuf),
    /// Name of a binary installed in `$PATH`.
    Binary(String),
    /// Full name of a font.
    Font(String),
    /// A modalias glob representing the hardware types the component handles.
    Modalias(String),
    /// Information needed to associate a firmware with a device.
    Firmware {
        /// The firmware type.
        kind: FirmwareKind,
        /// The name of the file, or the identifier of the device.
        item: String,
    },
    /// Name of a Python 2 module.
    Python2(String),
    /// Name of a Python 3 module.
    Python3(String),
    /// A name on the message bus.
    DBus(String),
    /// Useful when the component-id had to be renamed.
    Id(AppId),
    /// Required only for Codec components.
    Codec(String),
}

/// A [`Provide`] with its string as a character sequence.
pub enum ProvideView {
    Library(PathBuf),
    Binary(Seq<char>),
    Font(Seq<char>),
    Modalias(Seq<char>),
    Firmware { kind: FirmwareKind, item: Seq<char> },
    Python2(Seq<char>),
    Python3(Seq<char>),
    DBus(Seq<char>),
    Id(Seq<char>),
    Codec(Seq<char>),
}

impl View for Provide {
    type V = ProvideView;

    open spec fn view(&self) -> ProvideView {
        match *self {
            Provide::Library(p) => ProvideView::Library(p),
            Provide::Binary(v) => ProvideView::Binary(v@),
            Provide::Font(v) => ProvideView::Font(v@),
            Provide::Modalias(v) => ProvideView::Modalias(v@),
            Provide::Firmware { kind, item } => ProvideView::Firmware { kind, item: item@ },
            Provide::Python2(v) => ProvideView::Python2(v@),
            Provide::Python3(v) => ProvideView::Python3(v@),
            Provide::DBus(v) => ProvideView::DBus(v@),
            Provide::Id(id) => ProvideView::Id(id@),
            Provide::Codec(v) => ProvideView::Codec(v@),
        }
    }
}

impl Provide {
    /// The interface that a child of `provides` denotes: the tag names the
    /// kind, the text, which is required, is the item. A firmware requires a
    /// `type` attribute that names its kind.
    pub open spec fn spec_try_from(e: Element) -> Result<ProvideView, ParseErrorView> {
        match e.spec_text() {
            None => Err(ParseErrorView::MissingValue("provide"@)),
            Some(val) => {
                let tag = e.name@;
                if tag == "library"@ {
                    Ok(ProvideView::Library(path_of(val)))
                } else if tag == "binary"@ {
                    Ok(ProvideView::Binary(val))
                } else if tag == "font"@ {
                    Ok(ProvideView::Font(val))
                } else if tag == "modalias"@ {
                    Ok(ProvideView::Modalias(val))
                } else if tag == "python2"@ {
                    Ok(ProvideView::Python2(val))
                } else if tag == "python3"@ {
                    Ok(ProvideView::Python3(val))
                } else if tag == "dbus"@ {
                    Ok(ProvideView::DBus(val))
                } else if tag == "id"@ {
                    Ok(ProvideView::Id(val))
                } else if tag == "codec"@ {
                    Ok(ProvideView::Codec(val))
                } else if tag == "firmware"@ {
                    match e.spec_attribute("type"@) {
                        None => Err(ParseErrorView::MissingAttribute("type"@, "firmware"@)),
                        Some(k) => match FirmwareKind::spec_from_str(k) {
                            Some(kind) => Ok(ProvideView::Firmware { kind, item: val }),
                            None => Err(ParseErrorView::InvalidValue(k, "type"@, "firmware"@)),
                        },
                    }
                } else {
                    Err(ParseErrorView::InvalidValue(tag, "type"@, "provide"@))
                }
            },
        }
    }
}

impl Provide {
    /// Reads the interface that `e` denotes: see [`Provide::spec_try_from`].
    pub fn try_from(e: &Element) -> (r: Result<Self, ParseError>)
        ensures
            result_view(r) == Provide::spec_try_from(*e),
    {
        let val = match e.get_text() {
            Some(v) => v,
            None => { return Err(ParseError::missing_value("provide")); },
        };
        let tag = e.name.as_str();
        if str_eq(tag, "library") {
            Ok(Provide::Library(path_from(val)))
        } else if str_eq(tag, "binary") {
            Ok(Provide::Binary(val))
        } else if str_eq(tag, "font") {
            Ok(Provide::Font(val))
        } else if str_eq(tag, "modalias") {
            Ok(Provide::Modalias(val))
        } else if str_eq(tag, "python2") {
            Ok(Provide::Python2(val))
        } else if str_eq(tag, "python3") {
            Ok(Provide::Python3(val))
        } else if str_eq(tag, "dbus") {
            Ok(Provide::DBus(val))
        } else if str_eq(tag, "id") {
            Ok(Provide::Id(AppId(val)))
        } else if str_eq(tag, "codec") {
            Ok(Provide::Codec(val))
        } else if str_eq(tag, "firmware") {
            match e.attribute("type") {
                None => Err(ParseError::missing_attribute("type", "firmware")),
                Some(k) => match FirmwareKind::from_str(k.as_str()) {
                    Ok(kind) => Ok(Provide::Firmware { kind, item: val }),
                    Err(_) => Err(ParseError::invalid_value(k.as_str(), "type", "firmware")),
                },
            }
        } else {
            Err(ParseError::invalid_value(tag, "type", "provide"))
        }
    }
}

impl FromElement for Provide {
    open spec fn spec_from_element(e: Element) -> Result<ProvideView, ParseErrorView> {
        Provide::spec_try_from(e)
    }

    fn from_element(e: &Element) -> (r: Result<Self, ParseError>) {
        Provide::try_from(e)
    }

    proof fn lemma_model_decides(a: Element, b: Element) {
        lemma_same_text(a, b);
        lemma_same_attribute(a, b, "type"@);
    }
}

} // verus!
