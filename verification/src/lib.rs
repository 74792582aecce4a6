//! # Appstream
//!
//! AppStream is a cross-distro effort for enhancing the metadata available
//! about software components in the Linux and free-software ecosystem. This
//! crate holds the typed model of that metadata, and its conversion from a
//! generic element tree.
//!
//! An [`Element`] is the input: a tag name, attributes and ordered child
//! nodes, as a generic XML parser hands them out. Each type of the model has a
//! `try_from` that reads one element and returns the typed value or a
//! [`ParseError`]. The contract of each `try_from` equates its result, taken by
//! its view, with a specification function of the element, `spec_try_from`.
//! What an element denotes depends on its model alone, and not on the order in
//! which its attributes stand: see [`model`].
//!
//! [`Component::from_bytes`] and [`Collection::from_bytes`] read a document
//! from its bytes: `xmltree` parses it, and the root element is converted.
//!
//! A collection is converted as a whole or not at all: the first component
//! that fails decides the error of its collection.
//!
//! ```
//! use appstream::builders::ComponentBuilder;
//! use appstream::{Component, TranslatableString};
//!
//! let xml = "<component><id>com.example.foobar</id><name>Foo Bar</name></component>";
//! let read = Component::from_bytes(xml.as_bytes()).unwrap();
//! let built = ComponentBuilder::default()
//!     .id("com.example.foobar".into())
//!     .name(TranslatableString::with_default("Foo Bar"))
//!     .build()
//!     .unwrap();
//! assert_eq!(read, built);
//! ```
pub mod app_id;
pub mod builders;
pub mod collection;
pub mod component;
pub mod content_rating;
pub mod dates;
pub mod document;
pub mod element;
pub mod enums;
pub mod error;
pub mod language;
pub mod license;
pub mod links;
pub mod model;
pub mod paths;
pub mod release;
pub mod requirements;
pub mod screenshot;
pub mod string_map;
pub mod text;
pub mod translatable_string;
pub mod views;
pub mod walk;

pub use app_id::AppId;
pub use collection::Collection;
pub use component::Component;
pub use content_rating::ContentRating;
pub use dates::DateTime;
pub use element::{Element, Node};
pub use error::{ContextParseError, ParseError};
pub use language::Language;
pub use license::License;
pub use release::{Artifact, Issue, Release};
pub use requirements::{Control, DisplayLength, DisplayLengthValue, Requirement};
pub use screenshot::{Image, Screenshot, Video};
pub use translatable_string::{MarkupTranslatableString, TranslatableList, TranslatableString};
pub use url;
