//! Licenses.
use vstd::prelude::*;
use vstd::std_specs::convert::FromSpecImpl;
use crate::element::Element;
use crate::error::{ParseError, ParseErrorView};
use crate::views::result_view;
use crate::model::lemma_same_text;

verus! {

/// A SPDX license.
#[derive(Clone, Debug, PartialEq, Eq)]
pub struct License(pub String);

impl View for License {
    type V = Seq<char>;

    open spec fn view(&self) -> Seq<char> {
        self.0@
    }
}

impl From<String> for License {
    fn from(l: String) -> (r: Self)
        ensures
            r == License(l),
    {
        License(l)
    }
}

impl FromSpecImpl<String> for License {
    open spec fn obeys_from_spec() -> bool {
        true
    }

    open spec fn from_spec(l: String) -> Self {
        License(l)
    }
}

impl From<&str> for License {
    fn from(l: &str) -> (r: Self)
        ensures
            r@ == l@,
    {
        License(l.to_owned())
    }
}

impl FromSpecImpl<&str> for License {
    open spec fn obeys_from_spec() -> bool {
        false
    }

    open spec fn from_spec(l: &str) -> Self {
        arbitrary()
    }
}

impl License {
    /// The license as text.
    pub fn to_string(&self) -> (r: String)
        ensures
            r@ == self@,
    {
        self.0.clone()
    }

    /// The license that `e` holds: its text, which is required.
    pub open spec fn spec_try_from(e: Element) -> Result<Seq<char>, ParseErrorView> {
        e.spec_required_text("license"@)
    }
}

impl License {
    /// Reads the license that `e` denotes: see [`License::spec_try_from`].
    pub fn try_from(e: &Element) -> (r: Result<Self, ParseError>)
        ensures
            result_view(r) == License::spec_try_from(*e),
    {
        match e.get_text() {
            Some(t) => Ok(License(t)),
            None => Err(ParseError::missing_value("license")),
        }
    }
}

/// Elements with the same model denote the same license.
pub proof fn lemma_license_model_decides(a: Element, b: Element)
    requires
        a.model() == b.model(),
    ensures
        License::spec_try_from(a) == License::spec_try_from(b),
{
    lemma_same_text(a, b);
}

} // verus!
