//! Bundles: references to the installers of other parties.
use vstd::prelude::*;
use crate::element::Element;
use crate::error::{ParseError, ParseErrorView};
use crate::text::str_eq;
use crate::views::{option_view, result_view};
use crate::model::{lemma_same_attribute, lemma_same_text};

verus! {

/// Indicates that the software is available via a 3rd-party application
/// installer.
#[derive(Debug, PartialEq)]
#[non_exhaustive]
pub enum Bundle {
    /// A Limba bundle.
    Limba(String),
    /// A Flatpak bundle.
    Flatpak {
        /// The required runtime to run the application.
        runtime: Option<String>,
        /// The SDK used to build the application.
        sdk: String,
        /// The application reference.
        reference: String,
    },
    /// An AppImage bundle.
    AppImage(String),
    /// A Snap bundle.
    Snap(String),
    /// Plain and possibly compressed tarballs.
    Tarball(String),
}

/// A [`Bundle`] with its strings as character sequences.
pub enum BundleView {
    Limba(Seq<char>),
    Flatpak { runtime: Option<Seq<char>>, sdk: Seq<char>, reference: Seq<char> },
    AppImage(Seq<char>),
    Snap(Seq<char>),
    Tarball(Seq<char>),
}

impl View for Bundle {
    type V = BundleView;

    open spec fn view(&self) -> BundleView {
        match *self {
            Bundle::Limba(id) => BundleView::Limba(id@),
            Bundle::Flatpak { runtime, sdk, reference } => BundleView::Flatpak {
                runtime: option_view(runtime),
                sdk: sdk@,
                reference: reference@,
            },
            Bundle::AppImage(id) => BundleView::AppImage(id@),
            Bundle::Snap(id) => BundleView::Snap(id@),
            Bundle::Tarball(id) => BundleView::Tarball(id@),
        }
    }
}

impl Bundle {
    /// The bundle that a `bundle` element denotes. Its text is the reference
    /// and its `type` attribute names the installer; both are required. A
    /// Flatpak bundle requires the `sdk` attribute too, and may have a
    /// `runtime` attribute.
    pub open spec fn spec_try_from(e: Element) -> Result<BundleView, ParseErrorView> {
        match e.spec_text() {
            None => Err(ParseErrorView::MissingValue("bundle"@)),
            Some(val) => match e.spec_attribute("type"@) {
                None => Err(ParseErrorView::MissingAttribute("type"@, "bundle"@)),
                Some(t) => if t == "tarball"@ {
                    Ok(BundleView::Tarball(val))
                } else if t == "snap"@ {
                    Ok(BundleView::Snap(val))
                } else if t == "appimage"@ {
                    Ok(BundleView::AppImage(val))
                } else if t == "limba"@ {
                    Ok(BundleView::Limba(val))
                } else if t == "flatpak"@ {
                    match e.spec_attribute("sdk"@) {
                        None => Err(ParseErrorView::MissingAttribute("sdk"@, "bundle"@)),
                        Some(sdk) => Ok(
                            BundleView::Flatpak {
                                runtime: e.spec_attribute("runtime"@),
                                sdk,
                                reference: val,
                            },
                        ),
                    }
                } else {
                    Err(ParseErrorView::InvalidValue(t, "type"@, "bundle"@))
                },
            },
        }
    }
}

impl Bundle {
    /// Reads the bundle that `e` denotes: see [`Bundle::spec_try_from`].
    pub fn try_from(e: &Element) -> (r: Result<Self, ParseError>)
        ensures
            result_view(r) == Bundle::spec_try_from(*e),
    {
        let val = match e.get_text() {
            Some(v) => v,
            None => { return Err(ParseError::missing_value("bundle")); },
        };
        let t = match e.attribute("type") {
            Some(t) => t.as_str(),
            None => { return Err(ParseError::missing_attribute("type", "bundle")); },
        };
        if str_eq(t, "tarball") {
            Ok(Bundle::Tarball(val))
        } else if str_eq(t, "snap") {
            Ok(Bundle::Snap(val))
        } else if str_eq(t, "appimage") {
            Ok(Bundle::AppImage(val))
        } else if str_eq(t, "limba") {
            Ok(Bundle::Limba(val))
        } else if str_eq(t, "flatpak") {
            let runtime = match e.attribute("runtime") {
                Some(r) => Some(r.clone()),
                None => None,
            };
            match e.attribute("sdk") {
                None => Err(ParseError::missing_attribute("sdk", "bundle")),
                Some(sdk) => Ok(Bundle::Flatpak { runtime, sdk: sdk.clone(), reference: val }),
            }
        } else {
            Err(ParseError::invalid_value(t, "type", "bundle"))
        }
    }
}

/// Elements with the same model denote the same bundle.
pub proof fn lemma_bundle_model_decides(a: Element, b: Element)
    requires
        a.model() == b.model(),
    ensures
        Bundle::spec_try_from(a) == Bundle::spec_try_from(b),
{
    lemma_same_text(a, b);
    lemma_same_attribute(a, b, "type"@);
    lemma_same_attribute(a, b, "sdk"@);
    lemma_same_attribute(a, b, "runtime"@);
}

impl Clone for Bundle {
    fn clone(&self) -> (r: Self)
        ensures
            r == *self,
    {
        match self {
            Bundle::Limba(v) => Bundle::Limba(v.clone()),
            Bundle::Flatpak { runtime, sdk, reference } => Bundle::Flatpak {
                runtime: match runtime {
                    Some(t) => Some(t.clone()),
                    None => None,
                },
                sdk: sdk.clone(),
                reference: reference.clone(),
            },
            Bundle::AppImage(v) => Bundle::AppImage(v.clone()),
            Bundle::Snap(v) => Bundle::Snap(v.clone()),
            Bundle::Tarball(v) => Bundle::Tarball(v.clone()),
        }
    }
}

} // verus!
