//! Kudos: marks of quality that a component has earned.
use vstd::prelude::*;
use crate::element::Element;
use crate::enums::kinds::VariantNotFound;
use crate::error::{ParseError, ParseErrorView};
use crate::text::str_eq;
use crate::walk::FromElement;
use crate::model::lemma_same_text;

verus! {

/// Defines some metrics of awesomeness.
#[derive(Clone, Debug, PartialEq)]
#[non_exhaustive]
pub enum Kudo {
    /// The application uses an AppMenu. It should not be used anymore.
    AppMenu,
    /// The application installs a 128px icon or larger.
    HiDpiIcon,
    /// The application uses high contrast icons for visually impaired users.
    HighContrast,
    /// Uses a modern toolkit like GTK 3 or Qt 5.
    ModernToolkit,
    /// Registers for sending desktop notifications.
    Notifications,
    /// Provides a search provider for GNOME Shell or KDE Plasma.
    SearchProvider,
    /// Provides user documentation/help.
    UserDocs,
    /// A kudo that is not known here, under the name as it stands.
    Unknown(String),
}

/// A [`Kudo`] as contracts see it: a known kudo, or the name of one that is
/// not known.
pub enum KudoView {
    Known(Kudo),
    Unknown(Seq<char>),
}

impl View for Kudo {
    type V = KudoView;

    open spec fn view(&self) -> KudoView {
        match *self {
            Kudo::Unknown(name) => KudoView::Unknown(name@),
            known => KudoView::Known(known),
        }
    }
}

impl Kudo {
    /// The kudo that is written as `s`: a known one, or an unknown one under
    /// that name.
    pub open spec fn spec_from_str(s: Seq<char>) -> KudoView {
        if s == "AppMenu"@ {
            KudoView::Known(Kudo::AppMenu)
        } else if s == "HiDpiIcon"@ {
            KudoView::Known(Kudo::HiDpiIcon)
        } else if s == "HighContrast"@ {
            KudoView::Known(Kudo::HighContrast)
        } else if s == "ModernToolkit"@ {
            KudoView::Known(Kudo::ModernToolkit)
        } else if s == "Notifications"@ {
            KudoView::Known(Kudo::Notifications)
        } else if s == "SearchProvider"@ {
            KudoView::Known(Kudo::SearchProvider)
        } else if s == "UserDocs"@ {
            KudoView::Known(Kudo::UserDocs)
        } else {
            KudoView::Unknown(s)
        }
    }

    /// The kudo that is written as `s`: a known one, or an unknown one under
    /// that name. Every name gives a kudo.
    pub fn from_str(s: &str) -> (r: Result<Self, VariantNotFound>)
        ensures
            match r {
                Ok(k) => k@ == Self::spec_from_str(s@),
                Err(_) => false,
            },
    {
        if str_eq(s, "AppMenu") {
            Ok(Kudo::AppMenu)
        } else if str_eq(s, "HiDpiIcon") {
            Ok(Kudo::HiDpiIcon)
        } else if str_eq(s, "HighContrast") {
            Ok(Kudo::HighContrast)
        } else if str_eq(s, "ModernToolkit") {
            Ok(Kudo::ModernToolkit)
        } else if str_eq(s, "Notifications") {
            Ok(Kudo::Notifications)
        } else if str_eq(s, "SearchProvider") {
            Ok(Kudo::SearchProvider)
        } else if str_eq(s, "UserDocs") {
            Ok(Kudo::UserDocs)
        } else {
            Ok(Kudo::Unknown(s.to_owned()))
        }
    }
}

impl FromElement for Kudo {
    /// The kudo that an element names by its text, which is required.
    open spec fn spec_from_element(e: Element) -> Result<KudoView, ParseErrorView> {
        match e.spec_text() {
            None => Err(ParseErrorView::MissingValue("kudo"@)),
            Some(t) => Ok(Kudo::spec_from_str(t)),
        }
    }

    fn from_element(e: &Element) -> (r: Result<Self, ParseError>) {
        match e.get_text() {
            None => Err(ParseError::missing_value("kudo")),
            Some(t) => match Kudo::from_str(t.as_str()) {
                Ok(v) => Ok(v),
                Err(_) => Err(ParseError::invalid_value(t.as_str(), "$value", "kudo")),
            },
        }
    }

    proof fn lemma_model_decides(a: Element, b: Element) {
        lemma_same_text(a, b);
    }
}

} // verus!
