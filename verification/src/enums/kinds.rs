//! The closed vocabularies without a payload: each value is written in
//! documents under one name, or a few.
use vstd::prelude::*;
use std::cmp::Ordering;
use crate::error::{ParseError, ParseErrorView};
use crate::text::str_eq;
use crate::views::result_view;

verus! {

/// The error of a `from_str` that knows no value under the given name.
#[derive(Clone, Copy, Debug, PartialEq, Eq, Structural)]
pub struct VariantNotFound;

/// The artifact type.
#[derive(Clone, Copy, Debug, PartialEq, Eq, Structural)]
#[non_exhaustive]
pub enum ArtifactKind {
    /// The artifact is distributed as source-code.
    Source,
    /// The artifact is distributed as binary.
    Binary,
}

impl ArtifactKind {
    /// The name under which documents write this value.
    pub open spec fn spec_as_str(self) -> Seq<char> {
        match self {
            ArtifactKind::Source => "source"@,
            ArtifactKind::Binary => "binary"@,
        }
    }

    /// The name under which documents write this value.
    pub fn as_str(&self) -> (r: &'static str)
        ensures
            r@ == self.spec_as_str(),
    {
        match self {
            ArtifactKind::Source => "source",
            ArtifactKind::Binary => "binary",
        }
    }

    /// The value that documents write as `s`.
    pub open spec fn spec_from_str(s: Seq<char>) -> Option<ArtifactKind> {
        if s == "source"@ {
            Some(ArtifactKind::Source)
        } else if s == "binary"@ {
            Some(ArtifactKind::Binary)
        } else {
            None
        }
    }

    /// The value that documents write as `s`.
    pub fn from_str(s: &str) -> (r: Result<Self, VariantNotFound>)
        ensures
            r == match Self::spec_from_str(s@) {
                Some(v) => Ok::<Self, VariantNotFound>(v),
                None => Err(VariantNotFound),
            },
    {
        if str_eq(s, "source") {
            Ok(ArtifactKind::Source)
        } else if str_eq(s, "binary") {
            Ok(ArtifactKind::Binary)
        } else {
            Err(VariantNotFound)
        }
    }
}
/// Defines the various types of a `Component`.
#[derive(Clone, Copy, Debug, PartialEq, Eq, Structural)]
#[non_exhaustive]
pub enum ComponentKind {
    /// A runtime.
    Runtime,
    /// A terminal application (CLI).
    ConsoleApplication,
    /// A desktop application.
    DesktopApplication,
    /// A web application.
    WebApplication,
    /// An input method.
    InputMethod,
    /// An operating system.
    OS,
    /// A theme.
    Theme,
    /// A firmware.
    Firmware,
    /// An addon of another `Component`.
    Addon,
    /// A font.
    Font,
    /// A generic component.
    Generic,
    /// An icon theme.
    IconTheme,
    /// A localization package.
    Localization,
    /// A driver.
    Driver,
    /// A codec.
    Codec,
}

impl Default for ComponentKind {
    fn default() -> (r: Self)
        ensures
            r == ComponentKind::Generic,
    {
        ComponentKind::Generic
    }
}

impl ComponentKind {
    /// The name under which documents write this value.
    pub open spec fn spec_as_str(self) -> Seq<char> {
        match self {
            ComponentKind::Runtime => "runtime"@,
            ComponentKind::ConsoleApplication => "console"@,
            ComponentKind::DesktopApplication => "desktop"@,
            ComponentKind::WebApplication => "web-application"@,
            ComponentKind::InputMethod => "inputmethod"@,
            ComponentKind::OS => "operating-system"@,
            ComponentKind::Theme => "theme"@,
            ComponentKind::Firmware => "firmware"@,
            ComponentKind::Addon => "addon"@,
            ComponentKind::Font => "font"@,
            ComponentKind::Generic => "generic"@,
            ComponentKind::IconTheme => "icon-theme"@,
            ComponentKind::Localization => "localization"@,
            ComponentKind::Driver => "driver"@,
            ComponentKind::Codec => "codec"@,
        }
    }

    /// The name under which documents write this value.
    pub fn as_str(&self) -> (r: &'static str)
        ensures
            r@ == self.spec_as_str(),
    {
        match self {
            ComponentKind::Runtime => "runtime",
            ComponentKind::ConsoleApplication => "console",
            ComponentKind::DesktopApplication => "desktop",
            ComponentKind::WebApplication => "web-application",
            ComponentKind::InputMethod => "inputmethod",
            ComponentKind::OS => "operating-system",
            ComponentKind::Theme => "theme",
            ComponentKind::Firmware => "firmware",
            ComponentKind::Addon => "addon",
            ComponentKind::Font => "font",
            ComponentKind::Generic => "generic",
            ComponentKind::IconTheme => "icon-theme",
            ComponentKind::Localization => "localization",
            ComponentKind::Driver => "driver",
            ComponentKind::Codec => "codec",
        }
    }
}
/// Defines the state of a `ContentAttribute`.
#[derive(Clone, Copy, Debug, PartialEq, Eq, Structural)]
pub enum ContentState {
    /// No state is set.
    Unset,
    /// Mild state.
    Mild,
    /// Moderate state.
    Moderate,
    /// Intense state.
    Intense,
}

impl Default for ContentState {
    fn default() -> (r: Self)
        ensures
            r == ContentState::Unset,
    {
        ContentState::Unset
    }
}

impl ContentState {
    /// The name under which documents write this value.
    pub open spec fn spec_as_str(self) -> Seq<char> {
        match self {
            ContentState::Unset => "none"@,
            ContentState::Mild => "mild"@,
            ContentState::Moderate => "moderate"@,
            ContentState::Intense => "intense"@,
        }
    }

    /// The name under which documents write this value.
    pub fn as_str(&self) -> (r: &'static str)
        ensures
            r@ == self.spec_as_str(),
    {
        match self {
            ContentState::Unset => "none",
            ContentState::Mild => "mild",
            ContentState::Moderate => "moderate",
            ContentState::Intense => "intense",
        }
    }

    /// The value that documents write as `s`.
    pub open spec fn spec_from_str(s: Seq<char>) -> Option<ContentState> {
        if s == "none"@ {
            Some(ContentState::Unset)
        } else if s == "mild"@ {
            Some(ContentState::Mild)
        } else if s == "moderate"@ {
            Some(ContentState::Moderate)
        } else if s == "intense"@ {
            Some(ContentState::Intense)
        } else {
            None
        }
    }

    /// The value that documents write as `s`.
    pub fn from_str(s: &str) -> (r: Result<Self, VariantNotFound>)
        ensures
            r == match Self::spec_from_str(s@) {
                Some(v) => Ok::<Self, VariantNotFound>(v),
                None => Err(VariantNotFound),
            },
    {
        if str_eq(s, "none") {
            Ok(ContentState::Unset)
        } else if str_eq(s, "mild") {
            Ok(ContentState::Mild)
        } else if str_eq(s, "moderate") {
            Ok(ContentState::Moderate)
        } else if str_eq(s, "intense") {
            Ok(ContentState::Intense)
        } else {
            Err(VariantNotFound)
        }
    }
}
/// Defines the firmware type.
#[derive(Clone, Copy, Debug, PartialEq, Eq, Structural)]
pub enum FirmwareKind {
    /// A flashed firmware.
    Flashed,
    /// A runtime firmware.
    Runtime,
}

impl FirmwareKind {
    /// The name under which documents write this value.
    pub open spec fn spec_as_str(self) -> Seq<char> {
        match self {
            FirmwareKind::Flashed => "flashed"@,
            FirmwareKind::Runtime => "runtime"@,
        }
    }

    /// The name under which documents write this value.
    pub fn as_str(&self) -> (r: &'static str)
        ensures
            r@ == self.spec_as_str(),
    {
        match self {
            FirmwareKind::Flashed => "flashed",
            FirmwareKind::Runtime => "runtime",
        }
    }

    /// The value that documents write as `s`.
    pub open spec fn spec_from_str(s: Seq<char>) -> Option<FirmwareKind> {
        if s == "flashed"@ {
            Some(FirmwareKind::Flashed)
        } else if s == "runtime"@ {
            Some(FirmwareKind::Runtime)
        } else {
            None
        }
    }

    /// The value that documents write as `s`.
    pub fn from_str(s: &str) -> (r: Result<Self, VariantNotFound>)
        ensures
            r == match Self::spec_from_str(s@) {
                Some(v) => Ok::<Self, VariantNotFound>(v),
                None => Err(VariantNotFound),
            },
    {
        if str_eq(s, "flashed") {
            Ok(FirmwareKind::Flashed)
        } else if str_eq(s, "runtime") {
            Ok(FirmwareKind::Runtime)
        } else {
            Err(VariantNotFound)
        }
    }
}
/// The type of an issue that a release resolves.
#[derive(Clone, Copy, Debug, PartialEq, Eq, Structural)]
pub enum IssueKind {
    /// An issue in a bug tracker.
    Generic,
    /// A security vulnerability listed in the CVE registry.
    Cve,
}

impl Default for IssueKind {
    fn default() -> (r: Self)
        ensures
            r == IssueKind::Generic,
    {
        IssueKind::Generic
    }
}

impl IssueKind {
    /// The name under which documents write this value.
    pub open spec fn spec_as_str(self) -> Seq<char> {
        match self {
            IssueKind::Generic => "generic"@,
            IssueKind::Cve => "cve"@,
        }
    }

    /// The name under which documents write this value.
    pub fn as_str(&self) -> (r: &'static str)
        ensures
            r@ == self.spec_as_str(),
    {
        match self {
            IssueKind::Generic => "generic",
            IssueKind::Cve => "cve",
        }
    }

    /// The value that documents write as `s`.
    pub open spec fn spec_from_str(s: Seq<char>) -> Option<IssueKind> {
        if s == "generic"@ {
            Some(IssueKind::Generic)
        } else if s == "cve"@ {
            Some(IssueKind::Cve)
        } else {
            None
        }
    }

    /// The value that documents write as `s`.
    pub fn from_str(s: &str) -> (r: Result<Self, VariantNotFound>)
        ensures
            r == match Self::spec_from_str(s@) {
                Some(v) => Ok::<Self, VariantNotFound>(v),
                None => Err(VariantNotFound),
            },
    {
        if str_eq(s, "generic") {
            Ok(IssueKind::Generic)
        } else if str_eq(s, "cve") {
            Ok(IssueKind::Cve)
        } else {
            Err(VariantNotFound)
        }
    }
}
/// The type of an image.
#[derive(Clone, Copy, Debug, PartialEq, Eq, Structural)]
pub enum ImageKind {
    /// The source image.
    Source,
    /// A thumbnail image.
    Thumbnail,
}

impl Default for ImageKind {
    fn default() -> (r: Self)
        ensures
            r == ImageKind::Source,
    {
        ImageKind::Source
    }
}

impl ImageKind {
    /// The name under which documents write this value.
    pub open spec fn spec_as_str(self) -> Seq<char> {
        match self {
            ImageKind::Source => "source"@,
            ImageKind::Thumbnail => "thumbnail"@,
        }
    }

    /// The name under which documents write this value.
    pub fn as_str(&self) -> (r: &'static str)
        ensures
            r@ == self.spec_as_str(),
    {
        match self {
            ImageKind::Source => "source",
            ImageKind::Thumbnail => "thumbnail",
        }
    }

    /// The value that documents write as `s`.
    pub open spec fn spec_from_str(s: Seq<char>) -> Option<ImageKind> {
        if s == "source"@ {
            Some(ImageKind::Source)
        } else if s == "thumbnail"@ {
            Some(ImageKind::Thumbnail)
        } else {
            None
        }
    }

    /// The value that documents write as `s`.
    pub fn from_str(s: &str) -> (r: Result<Self, VariantNotFound>)
        ensures
            r == match Self::spec_from_str(s@) {
                Some(v) => Ok::<Self, VariantNotFound>(v),
                None => Err(VariantNotFound),
            },
    {
        if str_eq(s, "source") {
            Ok(ImageKind::Source)
        } else if str_eq(s, "thumbnail") {
            Ok(ImageKind::Thumbnail)
        } else {
            Err(VariantNotFound)
        }
    }
}
/// Classifies the release into stable/development.
#[derive(Clone, Copy, Debug, PartialEq, Eq, Structural)]
pub enum ReleaseKind {
    /// A stable release.
    Stable,
    /// A development release, not intended to be installed by users.
    Development,
}

impl Default for ReleaseKind {
    fn default() -> (r: Self)
        ensures
            r == ReleaseKind::Stable,
    {
        ReleaseKind::Stable
    }
}

impl ReleaseKind {
    /// The name under which documents write this value.
    pub open spec fn spec_as_str(self) -> Seq<char> {
        match self {
            ReleaseKind::Stable => "stable"@,
            ReleaseKind::Development => "development"@,
        }
    }

    /// The name under which documents write this value.
    pub fn as_str(&self) -> (r: &'static str)
        ensures
            r@ == self.spec_as_str(),
    {
        match self {
            ReleaseKind::Stable => "stable",
            ReleaseKind::Development => "development",
        }
    }

    /// The value that documents write as `s`.
    pub open spec fn spec_from_str(s: Seq<char>) -> Option<ReleaseKind> {
        if s == "stable"@ {
            Some(ReleaseKind::Stable)
        } else if s == "development"@ {
            Some(ReleaseKind::Development)
        } else {
            None
        }
    }

    /// The value that documents write as `s`.
    pub fn from_str(s: &str) -> (r: Result<Self, VariantNotFound>)
        ensures
            r == match Self::spec_from_str(s@) {
                Some(v) => Ok::<Self, VariantNotFound>(v),
                None => Err(VariantNotFound),
            },
    {
        if str_eq(s, "stable") {
            Ok(ReleaseKind::Stable)
        } else if str_eq(s, "development") {
            Ok(ReleaseKind::Development)
        } else {
            Err(VariantNotFound)
        }
    }
}
/// Defines how important it is to install the new release as an update.
#[derive(Clone, Copy, Debug, PartialEq, Eq, Structural)]
pub enum ReleaseUrgency {
    /// Low urgency.
    Low,
    /// Medium urgency.
    Medium,
    /// High urgency.
    High,
    /// Critical urgency.
    Critical,
}

impl Default for ReleaseUrgency {
    fn default() -> (r: Self)
        ensures
            r == ReleaseUrgency::Medium,
    {
        ReleaseUrgency::Medium
    }
}

impl ReleaseUrgency {
    /// The name under which documents write this value.
    pub open spec fn spec_as_str(self) -> Seq<char> {
        match self {
            ReleaseUrgency::Low => "low"@,
            ReleaseUrgency::Medium => "medium"@,
            ReleaseUrgency::High => "high"@,
            ReleaseUrgency::Critical => "critical"@,
        }
    }

    /// The name under which documents write this value.
    pub fn as_str(&self) -> (r: &'static str)
        ensures
            r@ == self.spec_as_str(),
    {
        match self {
            ReleaseUrgency::Low => "low",
            ReleaseUrgency::Medium => "medium",
            ReleaseUrgency::High => "high",
            ReleaseUrgency::Critical => "critical",
        }
    }

    /// The value that documents write as `s`.
    pub open spec fn spec_from_str(s: Seq<char>) -> Option<ReleaseUrgency> {
        if s == "low"@ {
            Some(ReleaseUrgency::Low)
        } else if s == "medium"@ {
            Some(ReleaseUrgency::Medium)
        } else if s == "high"@ {
            Some(ReleaseUrgency::High)
        } else if s == "critical"@ {
            Some(ReleaseUrgency::Critical)
        } else {
            None
        }
    }

    /// The value that documents write as `s`.
    pub fn from_str(s: &str) -> (r: Result<Self, VariantNotFound>)
        ensures
            r == match Self::spec_from_str(s@) {
                Some(v) => Ok::<Self, VariantNotFound>(v),
                None => Err(VariantNotFound),
            },
    {
        if str_eq(s, "low") {
            Ok(ReleaseUrgency::Low)
        } else if str_eq(s, "medium") {
            Ok(ReleaseUrgency::Medium)
        } else if str_eq(s, "high") {
            Ok(ReleaseUrgency::High)
        } else if str_eq(s, "critical") {
            Ok(ReleaseUrgency::Critical)
        } else {
            Err(VariantNotFound)
        }
    }
}
impl View for ComponentKind {
    type V = ComponentKind;

    open spec fn view(&self) -> ComponentKind {
        *self
    }
}

impl ComponentKind {
    /// The kind that the `type` attribute of a component names. An empty
    /// value names the generic kind.
    pub open spec fn spec_from_str(s: Seq<char>) -> Result<ComponentKind, ParseErrorView> {
        if s == "runtime"@ {
            Ok(ComponentKind::Runtime)
        } else if s == "console"@ || s == "console-application"@ {
            Ok(ComponentKind::ConsoleApplication)
        } else if s == "desktop"@ || s == "desktop-application"@ {
            Ok(ComponentKind::DesktopApplication)
        } else if s == "webapp"@ {
            Ok(ComponentKind::WebApplication)
        } else if s == "inputmethod"@ {
            Ok(ComponentKind::InputMethod)
        } else if s == "operating-system"@ {
            Ok(ComponentKind::OS)
        } else if s == "theme"@ {
            Ok(ComponentKind::Theme)
        } else if s == "firmware"@ {
            Ok(ComponentKind::Firmware)
        } else if s == "addon"@ {
            Ok(ComponentKind::Addon)
        } else if s == "font"@ {
            Ok(ComponentKind::Font)
        } else if s == "icontheme"@ || s == "icon-theme"@ {
            Ok(ComponentKind::IconTheme)
        } else if s == "driver"@ {
            Ok(ComponentKind::Driver)
        } else if s == "codec"@ {
            Ok(ComponentKind::Codec)
        } else if s == "localization"@ {
            Ok(ComponentKind::Localization)
        } else if s == ""@ || s == "generic"@ {
            Ok(ComponentKind::Generic)
        } else {
            Err(ParseErrorView::InvalidValue(s, "type"@, "component"@))
        }
    }

    /// The kind that the `type` attribute of a component names. An empty
    /// value names the generic kind.
    pub fn from_str(s: &str) -> (r: Result<Self, ParseError>)
        ensures
            result_view(r) == Self::spec_from_str(s@),
    {
        if str_eq(s, "runtime") {
            Ok(ComponentKind::Runtime)
        } else if str_eq(s, "console") || str_eq(s, "console-application") {
            Ok(ComponentKind::ConsoleApplication)
        } else if str_eq(s, "desktop") || str_eq(s, "desktop-application") {
            Ok(ComponentKind::DesktopApplication)
        } else if str_eq(s, "webapp") {
            Ok(ComponentKind::WebApplication)
        } else if str_eq(s, "inputmethod") {
            Ok(ComponentKind::InputMethod)
        } else if str_eq(s, "operating-system") {
            Ok(ComponentKind::OS)
        } else if str_eq(s, "theme") {
            Ok(ComponentKind::Theme)
        } else if str_eq(s, "firmware") {
            Ok(ComponentKind::Firmware)
        } else if str_eq(s, "addon") {
            Ok(ComponentKind::Addon)
        } else if str_eq(s, "font") {
            Ok(ComponentKind::Font)
        } else if str_eq(s, "icontheme") || str_eq(s, "icon-theme") {
            Ok(ComponentKind::IconTheme)
        } else if str_eq(s, "driver") {
            Ok(ComponentKind::Driver)
        } else if str_eq(s, "codec") {
            Ok(ComponentKind::Codec)
        } else if str_eq(s, "localization") {
            Ok(ComponentKind::Localization)
        } else if str_eq(s, "") || str_eq(s, "generic") {
            Ok(ComponentKind::Generic)
        } else {
            Err(ParseError::invalid_value(s, "type", "component"))
        }
    }
}

/// Defines the version of the OARS specification.
#[derive(Clone, Copy, Debug, PartialEq, Eq, Structural)]
#[non_exhaustive]
pub enum ContentRatingVersion {
    /// OARS v1.0.
    Oars1_0,
    /// OARS v1.1.
    Oars1_1,
    /// Unknown version.
    Unknown,
}

impl Default for ContentRatingVersion {
    fn default() -> (r: Self)
        ensures
            r == ContentRatingVersion::Unknown,
    {
        ContentRatingVersion::Unknown
    }
}

/// How version `a` compares with version `b`: a total order in which 1.0
/// comes before 1.1, and the unknown version comes before both of them,
/// whichever side it stands on. A version is equal to itself.
pub open spec fn version_order(a: ContentRatingVersion, b: ContentRatingVersion) -> Ordering {
    match (a, b) {
        (ContentRatingVersion::Unknown, ContentRatingVersion::Unknown) => Ordering::Equal,
        (ContentRatingVersion::Oars1_0, ContentRatingVersion::Oars1_1) => Ordering::Less,
        (ContentRatingVersion::Unknown, _) => Ordering::Less,
        (ContentRatingVersion::Oars1_1, ContentRatingVersion::Oars1_0) => Ordering::Greater,
        (_, ContentRatingVersion::Unknown) => Ordering::Greater,
        (ContentRatingVersion::Oars1_0, ContentRatingVersion::Oars1_0) => Ordering::Equal,
        (ContentRatingVersion::Oars1_1, ContentRatingVersion::Oars1_1) => Ordering::Equal,
    }
}

/// The place of a version among the versions: the unknown one lowest.
pub open spec fn version_rank(v: ContentRatingVersion) -> nat {
    match v {
        ContentRatingVersion::Unknown => 0,
        ContentRatingVersion::Oars1_0 => 1,
        ContentRatingVersion::Oars1_1 => 2,
    }
}

/// The order of two versions, seen from the other side.
pub open spec fn reversed(o: Ordering) -> Ordering {
    match o {
        Ordering::Less => Ordering::Greater,
        Ordering::Equal => Ordering::Equal,
        Ordering::Greater => Ordering::Less,
    }
}

/// The versions compare as their ranks do. So the order is total: two
/// versions compare equal exactly when they are the same, and a version
/// compares with another as the other compares with it, reversed. The
/// unknown version compares less than both known versions, and each of them
/// greater than it.
pub proof fn lemma_version_order_by_rank(a: ContentRatingVersion, b: ContentRatingVersion)
    ensures
        (version_order(a, b) == Ordering::Less) == (version_rank(a) < version_rank(b)),
        (version_order(a, b) == Ordering::Equal) == (a == b),
        (version_order(a, b) == Ordering::Greater) == (version_rank(a) > version_rank(b)),
        version_order(a, b) == reversed(version_order(b, a)),
        a == ContentRatingVersion::Unknown && b != ContentRatingVersion::Unknown ==> version_order(
            a,
            b,
        ) == Ordering::Less,
        a != ContentRatingVersion::Unknown && b == ContentRatingVersion::Unknown ==> version_order(
            a,
            b,
        ) == Ordering::Greater,
{
}

/// The order of the versions is transitive.
pub proof fn lemma_version_order_transitive(
    a: ContentRatingVersion,
    b: ContentRatingVersion,
    c: ContentRatingVersion,
)
    requires
        version_order(a, b) != Ordering::Greater,
        version_order(b, c) != Ordering::Greater,
    ensures
        version_order(a, c) != Ordering::Greater,
        version_order(a, b) == Ordering::Less || version_order(b, c) == Ordering::Less
            ==> version_order(a, c) == Ordering::Less,
{
}

impl ContentRatingVersion {
    /// The version that the `type` attribute of a rating names; the unknown
    /// version where it names none that is known.
    pub open spec fn spec_from_str(s: Seq<char>) -> ContentRatingVersion {
        if s == "oars-1.0"@ {
            ContentRatingVersion::Oars1_0
        } else if s == "oars-1.1"@ {
            ContentRatingVersion::Oars1_1
        } else {
            ContentRatingVersion::Unknown
        }
    }

    /// The version that the `type` attribute of a rating names; the unknown
    /// version where it names none that is known.
    pub fn from_str(s: &str) -> (r: Self)
        ensures
            r == Self::spec_from_str(s@),
    {
        if str_eq(s, "oars-1.0") {
            ContentRatingVersion::Oars1_0
        } else if str_eq(s, "oars-1.1") {
            ContentRatingVersion::Oars1_1
        } else {
            ContentRatingVersion::Unknown
        }
    }

    /// Compares two versions: see [`version_order`].
    pub fn cmp(&self, other: &Self) -> (r: Ordering)
        ensures
            r == version_order(*self, *other),
    {
        match (self, other) {
            (ContentRatingVersion::Unknown, ContentRatingVersion::Unknown) => Ordering::Equal,
            (ContentRatingVersion::Oars1_0, ContentRatingVersion::Oars1_1) => Ordering::Less,
            (ContentRatingVersion::Unknown, _) => Ordering::Less,
            (ContentRatingVersion::Oars1_1, ContentRatingVersion::Oars1_0) => Ordering::Greater,
            (_, ContentRatingVersion::Unknown) => Ordering::Greater,
            (ContentRatingVersion::Oars1_0, ContentRatingVersion::Oars1_0) => Ordering::Equal,
            (ContentRatingVersion::Oars1_1, ContentRatingVersion::Oars1_1) => Ordering::Equal,
        }
    }
}

impl PartialOrd for ContentRatingVersion {
    /// Compares two versions: see [`version_order`]. So `<` holds of the
    /// unknown version and each known version.
    fn partial_cmp(&self, other: &Self) -> (r: Option<Ordering>) {
        Some(self.cmp(other))
    }
}

impl vstd::std_specs::cmp::PartialOrdSpecImpl for ContentRatingVersion {
    open spec fn obeys_partial_cmp_spec() -> bool {
        true
    }

    open spec fn partial_cmp_spec(&self, other: &Self) -> Option<Ordering> {
        Some(version_order(*self, *other))
    }
}

} // verus!
