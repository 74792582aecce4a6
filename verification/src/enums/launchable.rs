//! Ways to launch a component.
use vstd::prelude::*;
use url::Url;
use crate::element::Element;
use crate::error::{ParseError, ParseErrorView};
use crate::links::{clone_url, read_url, url_parse};
use crate::text::str_eq;
use crate::views::result_view;
use crate::model::{lemma_same_attribute, lemma_same_text};

verus! {

/// Indicates possible methods to launch the application.
#[derive(Debug, PartialEq)]
#[non_exhaustive]
pub enum Launchable {
    /// The application can be launched via a desktop file.
    DesktopId(String),
    /// The software can be started, stopped and monitored by the OS "init"
    /// such as systemd.
    Service(String),
    /// The application is a website viewed through a browser.
    Url(Url),
    /// The software can be launched from the menus of the Cockpit admin
    /// interface.
    CockpitManifest(String),
    /// A way to launch that is not known here, with the text as it stands.
    Unknown(String),
}

/// A [`Launchable`] with its string as a character sequence.
pub enum LaunchableView {
    DesktopId(Seq<char>),
    Service(Seq<char>),
    Url(Url),
    CockpitManifest(Seq<char>),
    Unknown(Seq<char>),
}

impl View for Launchable {
    type V = LaunchableView;

    open spec fn view(&self) -> LaunchableView {
        match *self {
            Launchable::DesktopId(v) => LaunchableView::DesktopId(v@),
            Launchable::Service(v) => LaunchableView::Service(v@),
            Launchable::Url(u) => LaunchableView::Url(u),
            Launchable::CockpitManifest(v) => LaunchableView::CockpitManifest(v@),
            Launchable::Unknown(v) => LaunchableView::Unknown(v@),
        }
    }
}

impl Launchable {
    /// The launchable that a `launchable` element denotes: its text is the
    /// name, empty where it has none; its `type` attribute, which is
    /// required, names the way to launch. With the type `url` the text has to
    /// be a web address. A type that is not known gives `Unknown`.
    pub open spec fn spec_try_from(e: Element) -> Result<LaunchableView, ParseErrorView> {
        let val = e.spec_text_or_empty();
        match e.spec_attribute("type"@) {
            None => Err(ParseErrorView::MissingAttribute("type"@, "launchable"@)),
            Some(t) => if t == "cockpit-manifest"@ {
                Ok(LaunchableView::CockpitManifest(val))
            } else if t == "desktop-id"@ {
                Ok(LaunchableView::DesktopId(val))
            } else if t == "service"@ {
                Ok(LaunchableView::Service(val))
            } else if t == "url"@ {
                match url_parse(val) {
                    Ok(u) => Ok(LaunchableView::Url(u)),
                    Err(m) => Err(ParseErrorView::UrlParseError(m)),
                }
            } else {
                Ok(LaunchableView::Unknown(val))
            },
        }
    }
}

impl Launchable {
    /// Reads the launchable that `e` denotes: see [`Launchable::spec_try_from`].
    pub fn try_from(e: &Element) -> (r: Result<Self, ParseError>)
        ensures
            result_view(r) == Launchable::spec_try_from(*e),
    {
        let val = e.text_or_empty();
        let t = match e.attribute("type") {
            Some(t) => t.as_str(),
            None => { return Err(ParseError::missing_attribute("type", "launchable")); },
        };
        if str_eq(t, "cockpit-manifest") {
            Ok(Launchable::CockpitManifest(val))
        } else if str_eq(t, "desktop-id") {
            Ok(Launchable::DesktopId(val))
        } else if str_eq(t, "service") {
            Ok(Launchable::Service(val))
        } else if str_eq(t, "url") {
            match read_url(val.as_str()) {
                Ok(u) => Ok(Launchable::Url(u)),
                Err(err) => Err(err),
            }
        } else {
            Ok(Launchable::Unknown(val))
        }
    }
}

impl Clone for Launchable {
    fn clone(&self) -> (r: Self)
        ensures
            r == *self,
    {
        match self {
            Launchable::DesktopId(v) => Launchable::DesktopId(v.clone()),
            Launchable::Service(v) => Launchable::Service(v.clone()),
            Launchable::Url(u) => Launchable::Url(clone_url(u)),
            Launchable::CockpitManifest(v) => Launchable::CockpitManifest(v.clone()),
            Launchable::Unknown(v) => Launchable::Unknown(v.clone()),
        }
    }
}

/// Elements with the same model denote the same launchable.
pub proof fn lemma_launchable_model_decides(a: Element, b: Element)
    requires
        a.model() == b.model(),
    ensures
        Launchable::spec_try_from(a) == Launchable::spec_try_from(b),
{
    lemma_same_text(a, b);
    lemma_same_attribute(a, b, "type"@);
}

} // verus!
