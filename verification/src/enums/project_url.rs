//! Web addresses of a project.
use vstd::prelude::*;
use url::Url;
use crate::element::Element;
use crate::error::{ParseError, ParseErrorView};
use crate::links::{clone_url, read_url, url_parse};
use crate::text::str_eq;
use crate::views::result_view;
use crate::model::{lemma_same_attribute, lemma_same_text};

verus! {

/// Defines a list of possible project URLs.
#[derive(Debug, PartialEq)]
#[non_exhaustive]
pub enum ProjectUrl {
    /// Web page with information on how to donate.
    Donation(Url),
    /// To submit or modify translations.
    Translate(Url),
    /// Upstream homepage.
    Homepage(Url),
    /// Bug tracking system, to report new bugs.
    BugTracker(Url),
    /// An online user's reference.
    Help(Url),
    /// Web page with answers to frequently asked questions.
    Faq(Url),
    /// Web page that allows the user to contact the developer.
    Contact(Url),
    /// A web page of a kind that is not known here.
    Unknown(Url),
}

impl View for ProjectUrl {
    type V = ProjectUrl;

    open spec fn view(&self) -> ProjectUrl {
        *self
    }
}

impl ProjectUrl {
    /// The project URL of kind `t` with address `u`; of an unknown kind where
    /// `t` names none that is known.
    pub open spec fn of_kind(t: Seq<char>, u: Url) -> ProjectUrl {
        if t == "help"@ {
            ProjectUrl::Help(u)
        } else if t == "homepage"@ {
            ProjectUrl::Homepage(u)
        } else if t == "donation"@ {
            ProjectUrl::Donation(u)
        } else if t == "contact"@ {
            ProjectUrl::Contact(u)
        } else if t == "translate"@ {
            ProjectUrl::Translate(u)
        } else if t == "faq"@ {
            ProjectUrl::Faq(u)
        } else if t == "bugtracker"@ {
            ProjectUrl::BugTracker(u)
        } else {
            ProjectUrl::Unknown(u)
        }
    }

    /// The project URL that a `url` element denotes: its text is the
    /// address, its `type` attribute names the kind; both are required, and
    /// the text has to be a web address.
    pub open spec fn spec_try_from(e: Element) -> Result<ProjectUrl, ParseErrorView> {
        match e.spec_text() {
            None => Err(ParseErrorView::MissingValue("url"@)),
            Some(val) => match e.spec_attribute("type"@) {
                None => Err(ParseErrorView::MissingAttribute("type"@, "url"@)),
                Some(t) => match url_parse(val) {
                    Ok(u) => Ok(ProjectUrl::of_kind(t, u)),
                    Err(m) => Err(ParseErrorView::UrlParseError(m)),
                },
            },
        }
    }
}

impl ProjectUrl {
    /// Reads the project URL that `e` denotes: see [`ProjectUrl::spec_try_from`].
    pub fn try_from(e: &Element) -> (r: Result<Self, ParseError>)
        ensures
            result_view(r) == ProjectUrl::spec_try_from(*e),
    {
        let val = match e.get_text() {
            Some(v) => v,
            None => { return Err(ParseError::missing_value("url")); },
        };
        let t = match e.attribute("type") {
            Some(t) => t.as_str(),
            None => { return Err(ParseError::missing_attribute("type", "url")); },
        };
        match read_url(val.as_str()) {
            Ok(u) => Ok(ProjectUrl::with_kind(t, u)),
            Err(err) => Err(err),
        }
    }

    /// The project URL of kind `kind` with address `url`; of an unknown kind
    /// where `kind` names none that is known.
    pub fn with_kind(kind: &str, url: Url) -> (r: ProjectUrl)
        ensures
            r == ProjectUrl::of_kind(kind@, url),
    {
        if str_eq(kind, "help") {
            ProjectUrl::Help(url)
        } else if str_eq(kind, "homepage") {
            ProjectUrl::Homepage(url)
        } else if str_eq(kind, "donation") {
            ProjectUrl::Donation(url)
        } else if str_eq(kind, "contact") {
            ProjectUrl::Contact(url)
        } else if str_eq(kind, "translate") {
            ProjectUrl::Translate(url)
        } else if str_eq(kind, "faq") {
            ProjectUrl::Faq(url)
        } else if str_eq(kind, "bugtracker") {
            ProjectUrl::BugTracker(url)
        } else {
            ProjectUrl::Unknown(url)
        }
    }
}

impl Clone for ProjectUrl {
    fn clone(&self) -> (r: Self)
        ensures
            r == *self,
    {
        match self {
            ProjectUrl::Donation(u) => ProjectUrl::Donation(clone_url(u)),
            ProjectUrl::Translate(u) => ProjectUrl::Translate(clone_url(u)),
            ProjectUrl::Homepage(u) => ProjectUrl::Homepage(clone_url(u)),
            ProjectUrl::BugTracker(u) => ProjectUrl::BugTracker(clone_url(u)),
            ProjectUrl::Help(u) => ProjectUrl::Help(clone_url(u)),
            ProjectUrl::Faq(u) => ProjectUrl::Faq(clone_url(u)),
            ProjectUrl::Contact(u) => ProjectUrl::Contact(clone_url(u)),
            ProjectUrl::Unknown(u) => ProjectUrl::Unknown(clone_url(u)),
        }
    }
}

/// Elements with the same model denote the same project URL.
pub proof fn lemma_project_url_model_decides(a: Element, b: Element)
    requires
        a.model() == b.model(),
    ensures
        ProjectUrl::spec_try_from(a) == ProjectUrl::spec_try_from(b),
{
    lemma_same_text(a, b);
    lemma_same_attribute(a, b, "type"@);
}

} // verus!
