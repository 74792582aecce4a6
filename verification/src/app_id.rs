//! Identifiers of components.
use vstd::prelude::*;
use vstd::std_specs::convert::FromSpecImpl;
use crate::element::Element;
use crate::error::{ParseError, ParseErrorView};
use crate::views::result_view;
use crate::walk::FromElement;
use crate::model::lemma_same_text;

verus! {

/// Unique identifier of a component. It should be a reverse-DNS name.
#[derive(Clone, Debug, PartialEq)]
pub struct AppId(pub String);

impl View for AppId {
    type V = Seq<char>;

    open spec fn view(&self) -> Seq<char> {
        self.0@
    }
}

impl From<&str> for AppId {
    fn from(id: &str) -> (r: Self)
        ensures
            r@ == id@,
    {
        AppId(id.to_owned())
    }
}

impl FromSpecImpl<&str> for AppId {
    open spec fn obeys_from_spec() -> bool {
        false
    }

    open spec fn from_spec(id: &str) -> Self {
        arbitrary()
    }
}

impl From<String> for AppId {
    fn from(id: String) -> (r: Self)
        ensures
            r == AppId(id),
    {
        AppId(id)
    }
}

impl FromSpecImpl<String> for AppId {
    open spec fn obeys_from_spec() -> bool {
        true
    }

    open spec fn from_spec(id: String) -> Self {
        AppId(id)
    }
}

impl AppId {
    /// The identifier as text.
    pub fn to_string(&self) -> (r: String)
        ensures
            r@ == self@,
    {
        self.0.clone()
    }

    /// The identifier that `element` holds: its text, which is required.
    pub open spec fn spec_try_from(element: Element) -> Result<Seq<char>, ParseErrorView> {
        match element.spec_text() {
            Some(t) => Ok(t),
            None => Err(ParseErrorView::MissingValue("id"@)),
        }
    }
}

impl AppId {
    /// Reads the identifier that `element` holds: see [`AppId::spec_try_from`].
    pub fn try_from(element: &Element) -> (r: Result<Self, ParseError>)
        ensures
            result_view(r) == AppId::spec_try_from(*element),
    {
        match element.get_text() {
            Some(t) => Ok(AppId(t)),
            None => Err(ParseError::missing_value("id")),
        }
    }
}

impl FromElement for AppId {
    open spec fn spec_from_element(e: Element) -> Result<Seq<char>, ParseErrorView> {
        AppId::spec_try_from(e)
    }

    fn from_element(e: &Element) -> (r: Result<Self, ParseError>) {
        AppId::try_from(e)
    }

    proof fn lemma_model_decides(a: Element, b: Element) {
        lemma_same_text(a, b);
    }
}

} // verus!
