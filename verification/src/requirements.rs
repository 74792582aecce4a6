//! Requirements: what a component requires, recommends or supports.
use vstd::prelude::*;
use crate::app_id::AppId;
use crate::element::Element;
use crate::error::{ParseError, ParseErrorView};
use crate::text::{bounded_decimal, parse_u32, str_eq};
use crate::views::result_view;
use crate::walk::FromElement;
use crate::model::{lemma_same_attribute, lemma_same_text};

verus! {

/// How a requirement compares with the value that it names.
#[derive(Clone, Copy, Debug, PartialEq, Eq, Structural)]
pub enum Rel {
    /// Equal to.
    Eq,
    /// Not equal to.
    Ne,
    /// Less than.
    Lt,
    /// Greater than.
    Gt,
    /// Less than or equal to.
    Le,
    /// Greater than or equal to.
    Ge,
}

impl View for Rel {
    type V = Rel;

    open spec fn view(&self) -> Rel {
        *self
    }
}

impl Default for Rel {
    fn default() -> (r: Self)
        ensures
            r == Rel::Ge,
    {
        Rel::Ge
    }
}

impl Rel {
    /// The value that is written as `s`.
    pub open spec fn spec_try_from(s: Seq<char>) -> Result<Rel, ParseErrorView> {
        if s == "eq"@ {
            Ok(Rel::Eq)
        } else if s == "ne"@ {
            Ok(Rel::Ne)
        } else if s == "lt"@ {
            Ok(Rel::Lt)
        } else if s == "gt"@ {
            Ok(Rel::Gt)
        } else if s == "le"@ {
            Ok(Rel::Le)
        } else if s == "ge"@ {
            Ok(Rel::Ge)
        } else {
            Err(ParseErrorView::InvalidValue(s, "compare"@, "display_length"@))
        }
    }
}

impl Rel {
    /// Reads the relation that is written as `string`.
    pub fn try_from(string: &str) -> (r: Result<Self, ParseError>)
        ensures
            result_view(r) == Rel::spec_try_from(string@),
    {
        if str_eq(string, "eq") {
            Ok(Rel::Eq)
        } else if str_eq(string, "ne") {
            Ok(Rel::Ne)
        } else if str_eq(string, "lt") {
            Ok(Rel::Lt)
        } else if str_eq(string, "gt") {
            Ok(Rel::Gt)
        } else if str_eq(string, "le") {
            Ok(Rel::Le)
        } else if str_eq(string, "ge") {
            Ok(Rel::Ge)
        } else {
            Err(ParseError::invalid_value(string, "compare", "display_length"))
        }
    }
}

/// Which side of a display is measured.
#[derive(Clone, Copy, Debug, PartialEq, Eq, Structural)]
pub enum Side {
    /// The shortest side.
    Shortest,
    /// The longest side.
    Longest,
}

impl View for Side {
    type V = Side;

    open spec fn view(&self) -> Side {
        *self
    }
}

impl Default for Side {
    fn default() -> (r: Self)
        ensures
            r == Side::Shortest,
    {
        Side::Shortest
    }
}

impl Side {
    /// The value that is written as `s`.
    pub open spec fn spec_try_from(s: Seq<char>) -> Result<Side, ParseErrorView> {
        if s == "shortest"@ {
            Ok(Side::Shortest)
        } else if s == "longest"@ {
            Ok(Side::Longest)
        } else {
            Err(ParseErrorView::InvalidValue(s, "side"@, "display_length"@))
        }
    }
}

impl Side {
    /// Reads the side that is written as `string`.
    pub fn try_from(string: &str) -> (r: Result<Self, ParseError>)
        ensures
            result_view(r) == Side::spec_try_from(string@),
    {
        if str_eq(string, "shortest") {
            Ok(Side::Shortest)
        } else if str_eq(string, "longest") {
            Ok(Side::Longest)
        } else {
            Err(ParseError::invalid_value(string, "side", "display_length"))
        }
    }
}

/// Indicates support for or require certain ways a user can control the
/// software.
#[derive(Clone, Copy, Debug, PartialEq, Eq, Structural)]
pub enum Control {
    /// Input via mouse/cursors/other pointing devices is possible.
    Pointing,
    /// Keyboard input is possible.
    Keyboard,
    /// Control via a console / command-line interface.
    Console,
    /// Graphics tablet input.
    Tablet,
    /// Input by touching a surface with fingers is possible.
    Touch,
    /// The component supports gamepads (any game controller with
    /// wheels/buttons/joysticks).
    Gamepad,
    /// Input via a TV remote (with arrow keys, number pad, other basic inputs)
    /// is supported.
    TvRemote,
    /// The software can be controlled via voice recognition/activation.
    Voice,
    /// The software can be controlled by computer vision / visual object and
    /// sign detection.
    Vision,
}

impl View for Control {
    type V = Control;

    open spec fn view(&self) -> Control {
        *self
    }
}

impl Control {
    /// The value that is written as `s`.
    pub open spec fn spec_try_from(s: Seq<char>) -> Result<Control, ParseErrorView> {
        if s == "pointing"@ {
            Ok(Control::Pointing)
        } else if s == "keyboard"@ {
            Ok(Control::Keyboard)
        } else if s == "console"@ {
            Ok(Control::Console)
        } else if s == "tablet"@ {
            Ok(Control::Tablet)
        } else if s == "touch"@ {
            Ok(Control::Touch)
        } else if s == "gamepad"@ {
            Ok(Control::Gamepad)
        } else if s == "tv-remove"@ {
            Ok(Control::TvRemote)
        } else if s == "voice"@ {
            Ok(Control::Voice)
        } else if s == "vision"@ {
            Ok(Control::Vision)
        } else {
            Err(ParseErrorView::InvalidValue(s, "type"@, "compare"@))
        }
    }
}

impl Control {
    /// Reads the way of control that is written as `string`.
    pub fn try_from(string: &str) -> (r: Result<Self, ParseError>)
        ensures
            result_view(r) == Control::spec_try_from(string@),
    {
        if str_eq(string, "pointing") {
            Ok(Control::Pointing)
        } else if str_eq(string, "keyboard") {
            Ok(Control::Keyboard)
        } else if str_eq(string, "console") {
            Ok(Control::Console)
        } else if str_eq(string, "tablet") {
            Ok(Control::Tablet)
        } else if str_eq(string, "touch") {
            Ok(Control::Touch)
        } else if str_eq(string, "gamepad") {
            Ok(Control::Gamepad)
        } else if str_eq(string, "tv-remove") {
            Ok(Control::TvRemote)
        } else if str_eq(string, "voice") {
            Ok(Control::Voice)
        } else if str_eq(string, "vision") {
            Ok(Control::Vision)
        } else {
            Err(ParseError::invalid_value(string, "type", "compare"))
        }
    }
}

/// A value for a display length.
#[derive(Clone, Copy, Debug, PartialEq, Eq, Structural)]
pub enum DisplayLengthValue {
    /// Very small screens, as used in watches, wearables and other
    /// small-display devices (about <= 360px).
    Xsmall,
    /// Small screens often used in handheld devices, such as phone screens,
    /// small phablets (about < 768px).
    Small,
    /// Screens in laptops, tablets (about >= 768px).
    Medium,
    /// Bigger computer monitors (about >= 1024px).
    Large,
    /// Television screens, large projected images (about >= 3840px).
    Xlarge,
    /// A specific value in pixels.
    Value(u32),
}

impl View for DisplayLengthValue {
    type V = DisplayLengthValue;

    open spec fn view(&self) -> DisplayLengthValue {
        *self
    }
}

impl DisplayLengthValue {
    /// The display length that is written as `s`: one of the five named
    /// sizes, or a number of pixels.
    pub open spec fn spec_try_from(s: Seq<char>) -> Result<DisplayLengthValue, ParseErrorView> {
        if s == "xsmall"@ {
            Ok(DisplayLengthValue::Xsmall)
        } else if s == "small"@ {
            Ok(DisplayLengthValue::Small)
        } else if s == "medium"@ {
            Ok(DisplayLengthValue::Medium)
        } else if s == "large"@ {
            Ok(DisplayLengthValue::Large)
        } else if s == "xlarge"@ {
            Ok(DisplayLengthValue::Xlarge)
        } else {
            match bounded_decimal(s, u32::MAX as nat) {
                Some(n) => Ok(DisplayLengthValue::Value(n as u32)),
                None => Err(ParseErrorView::InvalidValue(s, "$value"@, "display_length"@)),
            }
        }
    }
}

impl DisplayLengthValue {
    /// Reads the display length that is written as `string`.
    pub fn try_from(string: &str) -> (r: Result<Self, ParseError>)
        ensures
            result_view(r) == DisplayLengthValue::spec_try_from(string@),
    {
        if str_eq(string, "xsmall") {
            Ok(DisplayLengthValue::Xsmall)
        } else if str_eq(string, "small") {
            Ok(DisplayLengthValue::Small)
        } else if str_eq(string, "medium") {
            Ok(DisplayLengthValue::Medium)
        } else if str_eq(string, "large") {
            Ok(DisplayLengthValue::Large)
        } else if str_eq(string, "xlarge") {
            Ok(DisplayLengthValue::Xlarge)
        } else {
            match parse_u32(string) {
                Some(n) => Ok(DisplayLengthValue::Value(n)),
                None => Err(ParseError::invalid_value(string, "$value", "display_length")),
            }
        }
    }
}

/// A display length requirement.
#[derive(Clone, Copy, Debug, PartialEq, Eq, Structural)]
pub struct DisplayLength {
    /// How the display compares with the value.
    pub compare: Rel,
    /// A relation to the display length defined as an integer value in logical
    /// pixels.
    pub value: DisplayLengthValue,
    /// Which side is being measured.
    pub side: Side,
}

impl View for DisplayLength {
    type V = DisplayLength;

    open spec fn view(&self) -> DisplayLength {
        *self
    }
}

impl DisplayLength {
    /// The requirement that a `display_length` element denotes: its text,
    /// which is required, is the value; `compare` and `side` say how to
    /// compare and what to measure, `ge` and the shortest side where they are
    /// missing.
    pub open spec fn spec_try_from(e: Element) -> Result<DisplayLength, ParseErrorView> {
        match e.spec_text() {
            None => Err(ParseErrorView::MissingValue("display_length"@)),
            Some(val) => match DisplayLengthValue::spec_try_from(val) {
                Err(err) => Err(err),
                Ok(value) => {
                    let compare = match e.spec_attribute("compare"@) {
                        None => Ok(Rel::Ge),
                        Some(c) => Rel::spec_try_from(c),
                    };
                    match compare {
                        Err(err) => Err(err),
                        Ok(compare) => {
                            let side = match e.spec_attribute("side"@) {
                                None => Ok(Side::Shortest),
                                Some(s) => Side::spec_try_from(s),
                            };
                            match side {
                                Err(err) => Err(err),
                                Ok(side) => Ok(DisplayLength { compare, value, side }),
                            }
                        },
                    }
                },
            },
        }
    }
}

impl DisplayLength {
    /// Reads the display length that `e` denotes: see [`DisplayLength::spec_try_from`].
    pub fn try_from(e: &Element) -> (r: Result<Self, ParseError>)
        ensures
            result_view(r) == DisplayLength::spec_try_from(*e),
    {
        let val = match e.get_text() {
            Some(v) => v,
            None => { return Err(ParseError::missing_value("display_length")); },
        };
        let value = match DisplayLengthValue::try_from(val.as_str()) {
            Ok(v) => v,
            Err(err) => { return Err(err); },
        };
        let compare = match e.attribute("compare") {
            None => Rel::Ge,
            Some(c) => match Rel::try_from(c.as_str()) {
                Ok(v) => v,
                Err(err) => { return Err(err); },
            },
        };
        let side = match e.attribute("side") {
            None => Side::Shortest,
            Some(s) => match Side::try_from(s.as_str()) {
                Ok(v) => v,
                Err(err) => { return Err(err); },
            },
        };
        Ok(DisplayLength { compare, value, side })
    }
}

/// A requirement.
#[derive(Clone, Debug, PartialEq)]
pub enum Requirement {
    /// A display length requirement.
    DisplayLength(DisplayLength),
    /// Indicates support for a certain kind of input.
    Control(Control),
    /// A requirement relation with another software component.
    AppId(AppId),
    /// A requirement of a kind that is not known here.
    Other,
}

/// A [`Requirement`] with its identifier as a character sequence.
pub enum RequirementView {
    DisplayLength(DisplayLength),
    Control(Control),
    AppId(Seq<char>),
    Other,
}

impl View for Requirement {
    type V = RequirementView;

    open spec fn view(&self) -> RequirementView {
        match *self {
            Requirement::DisplayLength(d) => RequirementView::DisplayLength(d),
            Requirement::Control(c) => RequirementView::Control(c),
            Requirement::AppId(id) => RequirementView::AppId(id@),
            Requirement::Other => RequirementView::Other,
        }
    }
}

impl Requirement {
    /// The requirement that a child of `requires`, `recommends` or `supports`
    /// denotes: a `display_length`, a `control` whose text, which is
    /// required, names the way of control, or an `id` whose text is the
    /// identifier of a component. An element with another tag is a
    /// requirement of another kind.
    pub open spec fn spec_try_from(e: Element) -> Result<RequirementView, ParseErrorView> {
        if e.name@ == "display_length"@ {
            match DisplayLength::spec_try_from(e) {
                Ok(d) => Ok(RequirementView::DisplayLength(d)),
                Err(err) => Err(err),
            }
        } else if e.name@ == "control"@ {
            match e.spec_text() {
                None => Err(ParseErrorView::MissingValue("control"@)),
                Some(val) => match Control::spec_try_from(val) {
                    Ok(c) => Ok(RequirementView::Control(c)),
                    Err(err) => Err(err),
                },
            }
        } else if e.name@ == "id"@ {
            match AppId::spec_try_from(e) {
                Ok(id) => Ok(RequirementView::AppId(id)),
                Err(err) => Err(err),
            }
        } else {
            Ok(RequirementView::Other)
        }
    }
}

impl Requirement {
    /// Reads the requirement that `e` denotes: see [`Requirement::spec_try_from`].
    pub fn try_from(e: &Element) -> (r: Result<Self, ParseError>)
        ensures
            result_view(r) == Requirement::spec_try_from(*e),
    {
        if str_eq(e.name.as_str(), "display_length") {
            match DisplayLength::try_from(e) {
                Ok(d) => Ok(Requirement::DisplayLength(d)),
                Err(err) => Err(err),
            }
        } else if str_eq(e.name.as_str(), "control") {
            let val = match e.get_text() {
                Some(v) => v,
                None => { return Err(ParseError::missing_value("control")); },
            };
            match Control::try_from(val.as_str()) {
                Ok(c) => Ok(Requirement::Control(c)),
                Err(err) => Err(err),
            }
        } else if str_eq(e.name.as_str(), "id") {
            match AppId::try_from(e) {
                Ok(id) => Ok(Requirement::AppId(id)),
                Err(err) => Err(err),
            }
        } else {
            Ok(Requirement::Other)
        }
    }
}

impl FromElement for Requirement {
    open spec fn spec_from_element(e: Element) -> Result<RequirementView, ParseErrorView> {
        Requirement::spec_try_from(e)
    }

    fn from_element(e: &Element) -> (r: Result<Self, ParseError>) {
        Requirement::try_from(e)
    }

    proof fn lemma_model_decides(a: Element, b: Element) {
        lemma_same_text(a, b);
        lemma_display_length_model_decides(a, b);
    }
}

/// Elements with the same model denote the same display length.
pub proof fn lemma_display_length_model_decides(a: Element, b: Element)
    requires
        a.model() == b.model(),
    ensures
        DisplayLength::spec_try_from(a) == DisplayLength::spec_try_from(b),
{
    lemma_same_text(a, b);
    lemma_same_attribute(a, b, "compare"@);
    lemma_same_attribute(a, b, "side"@);
}

} // verus!
