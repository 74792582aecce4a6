//! Various enumerations used in the appstream types.
pub mod bundle;
pub mod category;
pub mod checksum;
pub mod content_attribute;
pub mod icon;
pub mod kinds;
pub mod kudo;
pub mod launchable;
pub mod project_url;
pub mod provide;
pub mod size;
pub mod translation;

pub use bundle::{Bundle, BundleView};
pub use category::{Category, CategoryView};
pub use checksum::{Checksum, ChecksumView};
pub use content_attribute::ContentAttribute;
pub use icon::{Icon, IconView};
pub use kinds::{
    ArtifactKind, ComponentKind, ContentRatingVersion, ContentState, FirmwareKind, ImageKind,
    IssueKind, ReleaseKind, ReleaseUrgency, VariantNotFound,
};
pub use kudo::{Kudo, KudoView};
pub use launchable::{Launchable, LaunchableView};
pub use project_url::ProjectUrl;
pub use provide::{Provide, ProvideView};
pub use size::Size;
pub use translation::{Translation, TranslationView};
