//! Components, and their conversion from a `component` element.
use vstd::prelude::*;
use crate::app_id::AppId;
use crate::builders::{ComponentBuilder, ComponentBuilderView};
use crate::content_rating::{retained, ContentRating, ContentRatingView};
use crate::document::{gzipped_xml_document, xml_document};
use crate::element::{markup_in, Element, ElementModel, Node};
use crate::enums::bundle::{Bundle, BundleView};
use crate::enums::category::{Category, CategoryView};
use crate::enums::icon::{Icon, IconView};
use crate::enums::kinds::ComponentKind;
use crate::enums::kudo::{Kudo, KudoView};
use crate::enums::launchable::{Launchable, LaunchableView};
use crate::enums::project_url::ProjectUrl;
use crate::enums::provide::{Provide, ProvideView};
use crate::enums::translation::{Translation, TranslationView};
use crate::error::{ParseError, ParseErrorView};
use crate::language::{Language, LanguageView};
use crate::license::License;
use crate::release::{Release, ReleaseView};
use crate::requirements::{Requirement, RequirementView};
use crate::screenshot::{Screenshot, ScreenshotView};
use crate::string_map::StringMap;
use crate::text::str_eq;
use crate::translatable_string::{
    collected_texts, element_locale, element_text, list_added, DEFAULT_LOCALE,
    MarkupTranslatableString, TranslatableList, TranslatableString,
};
use crate::views::{lemma_views_add, lemma_views_push, option_view, result_view, views};
use crate::walk::{collect, collected, FromElement};
use crate::content_rating::lemma_content_rating_model_decides;
use crate::element::{node_model, nodes_model};
use crate::enums::bundle::lemma_bundle_model_decides;
use crate::enums::icon::lemma_icon_model_decides;
use crate::enums::launchable::lemma_launchable_model_decides;
use crate::enums::project_url::lemma_project_url_model_decides;
use crate::enums::translation::lemma_translation_model_decides;
use crate::license::lemma_license_model_decides;
use crate::model::{
    lemma_same_attribute, lemma_same_child_in, lemma_same_models_split, lemma_same_node_model,
    lemma_same_text,
};
use crate::translatable_string::lemma_same_locale_and_text;
use crate::walk::lemma_same_collected;

verus! {

/// The custom metadata of a component with its values as character
/// sequences.
pub open spec fn metadata_view(m: Map<Seq<char>, Option<String>>) -> Map<
    Seq<char>,
    Option<Seq<char>>,
> {
    Map::new(|k: Seq<char>| m.dom().contains(k), |k: Seq<char>| option_view(m[k]))
}

/// A component is wrapper around a `metainfo.xml` file or previously an
/// `appdata.xml` file. It describes an application to the various stores out
/// there on Linux.
#[derive(Clone, Debug, PartialEq)]
pub struct Component {
    /// The component type.
    pub kind: ComponentKind,
    /// Unique identifier for this component.
    pub id: AppId,
    /// A human-readable name.
    pub name: TranslatableString,
    /// Absolute requirements of the component.
    pub requires: Vec<Requirement>,
    /// Recommended requirements of the component.
    pub recommends: Vec<Requirement>,
    /// Supported features of the component.
    pub supports: Vec<Requirement>,
    /// A short summary of the component.
    pub summary: Option<TranslatableString>,
    /// A long description of this component.
    pub description: Option<MarkupTranslatableString>,
    /// The license of the component.
    pub project_license: Option<License>,
    /// The license the metainfo XML file is released under.
    pub metadata_license: Option<License>,
    /// Identify the project with a specific upstream umbrella.
    pub project_group: Option<String>,
    /// Indicate for which desktop environment the component is essential for
    /// its functionality.
    pub compulsory_for_desktop: Option<String>,
    /// The various AppId that the current component extends.
    pub extends: Vec<AppId>,
    /// The icons of the component.
    pub icons: Vec<Icon>,
    /// The component screenshots, composed of either images, videos or both.
    pub screenshots: Vec<Screenshot>,
    /// Web URLs.
    pub urls: Vec<ProjectUrl>,
    /// The developers or the projects responsible for the development of the
    /// project.
    pub developer_name: Option<TranslatableString>,
    /// Used by distributors to contact the project.
    pub update_contact: Option<String>,
    /// The categories this component is associated with.
    pub categories: Vec<Category>,
    /// Possible methods to launch the software.
    pub launchables: Vec<Launchable>,
    /// The pkgname, a distributor thing.
    pub pkgname: Option<String>,
    /// The source pkgname, a distributor thing.
    pub source_pkgname: Option<String>,
    /// 3rd-party sources to grab the component from.
    pub bundles: Vec<Bundle>,
    /// Metainformation that describes the various releases.
    pub releases: Vec<Release>,
    /// The languages supported by the component.
    pub languages: Vec<Language>,
    /// The MIME types the component supports.
    pub mimetypes: Vec<String>,
    /// Defines the "awesomeness" of a component.
    pub kudos: Vec<Kudo>,
    /// A list of keywords, to help the user find the component easily.
    pub keywords: Option<TranslatableList>,
    /// Specifies the age rating of the component.
    pub content_rating: Option<ContentRating>,
    /// Public interfaces the component provides.
    pub provides: Vec<Provide>,
    /// Specifies the translation domains.
    pub translations: Vec<Translation>,
    /// Suggested components to install.
    pub suggestions: Vec<AppId>,
    /// Custom metadata.
    pub metadata: StringMap<Option<String>>,
}

/// A [`Component`] with its parts as views.
pub struct ComponentView {
    pub kind: ComponentKind,
    pub id: Seq<char>,
    pub name: Map<Seq<char>, Seq<char>>,
    pub requires: Seq<RequirementView>,
    pub recommends: Seq<RequirementView>,
    pub supports: Seq<RequirementView>,
    pub summary: Option<Map<Seq<char>, Seq<char>>>,
    pub description: Option<Map<Seq<char>, Seq<char>>>,
    pub project_license: Option<Seq<char>>,
    pub metadata_license: Option<Seq<char>>,
    pub project_group: Option<Seq<char>>,
    pub compulsory_for_desktop: Option<Seq<char>>,
    pub extends: Seq<Seq<char>>,
    pub icons: Seq<IconView>,
    pub screenshots: Seq<ScreenshotView>,
    pub urls: Seq<ProjectUrl>,
    pub developer_name: Option<Map<Seq<char>, Seq<char>>>,
    pub update_contact: Option<Seq<char>>,
    pub categories: Seq<CategoryView>,
    pub launchables: Seq<LaunchableView>,
    pub pkgname: Option<Seq<char>>,
    pub source_pkgname: Option<Seq<char>>,
    pub bundles: Seq<BundleView>,
    pub releases: Seq<ReleaseView>,
    pub languages: Seq<LanguageView>,
    pub mimetypes: Seq<Seq<char>>,
    pub kudos: Seq<KudoView>,
    pub keywords: Option<Map<Seq<char>, Seq<Seq<char>>>>,
    pub content_rating: Option<ContentRatingView>,
    pub provides: Seq<ProvideView>,
    pub translations: Seq<TranslationView>,
    pub suggestions: Seq<Seq<char>>,
    pub metadata: Map<Seq<char>, Option<Seq<char>>>,
}

impl View for Component {
    type V = ComponentView;

    open spec fn view(&self) -> ComponentView {
        ComponentView {
            kind: self.kind,
            id: self.id@,
            name: self.name@,
            requires: views(self.requires@),
            recommends: views(self.recommends@),
            supports: views(self.supports@),
            summary: option_view(self.summary),
            description: option_view(self.description),
            project_license: option_view(self.project_license),
            metadata_license: option_view(self.metadata_license),
            project_group: option_view(self.project_group),
            compulsory_for_desktop: option_view(self.compulsory_for_desktop),
            extends: views(self.extends@),
            icons: views(self.icons@),
            screenshots: views(self.screenshots@),
            urls: self.urls@,
            developer_name: option_view(self.developer_name),
            update_contact: option_view(self.update_contact),
            categories: views(self.categories@),
            launchables: views(self.launchables@),
            pkgname: option_view(self.pkgname),
            source_pkgname: option_view(self.source_pkgname),
            bundles: views(self.bundles@),
            releases: views(self.releases@),
            languages: views(self.languages@),
            mimetypes: views(self.mimetypes@),
            kudos: views(self.kudos@),
            keywords: option_view(self.keywords),
            content_rating: option_view(self.content_rating),
            provides: views(self.provides@),
            translations: views(self.translations@),
            suggestions: views(self.suggestions@),
            metadata: metadata_view(self.metadata@),
        }
    }
}

/// The map that an optional map stands for: the empty one where there is
/// none.
pub open spec fn or_empty<V>(m: Option<Map<Seq<char>, V>>) -> Map<Seq<char>, V> {
    match m {
        Some(m) => m,
        None => Map::empty(),
    }
}

/// The MIME types that the children of a `mimetypes` element name, in
/// order: each child is an element whose text, which is required, is the
/// type.
pub open spec fn mimetypes_in(children: Seq<Node>) -> Result<Seq<Seq<char>>, ParseErrorView>
    decreases children.len(),
{
    if children.len() == 0 {
        Ok(Seq::empty())
    } else {
        match mimetypes_in(children.drop_last()) {
            Err(err) => Err(err),
            Ok(items) => match children.last() {
                Node::Element(c) => match c.spec_text() {
                    Some(t) => Ok(items.push(t)),
                    None => Err(ParseErrorView::MissingValue("mimetype"@)),
                },
                _ => Err(ParseErrorView::InvalidTag("mimetype"@)),
            },
        }
    }
}

/// Where a prefix of the children fails, all of them fail in the same way.
pub proof fn lemma_mimetypes_fail(children: Seq<Node>, k: int)
    requires
        0 <= k <= children.len(),
        mimetypes_in(children.take(k)) is Err,
    ensures
        mimetypes_in(children) == mimetypes_in(children.take(k)),
    decreases children.len() - k,
{
    if k == children.len() {
        assert(children.take(k) =~= children);
    } else {
        assert(children.take(k + 1).drop_last() =~= children.take(k));
        lemma_mimetypes_fail(children, k + 1);
    }
}

/// Reads the MIME types that the children of a `mimetypes` element name.
pub fn read_mimetypes(children: &Vec<Node>) -> (r: Result<Vec<String>, ParseError>)
    ensures
        match r {
            Ok(items) => mimetypes_in(children@) == Ok::<Seq<Seq<char>>, ParseErrorView>(
                views(items@),
            ),
            Err(err) => mimetypes_in(children@) == Err::<Seq<Seq<char>>, ParseErrorView>(err@),
        },
{
    let mut items: Vec<String> = Vec::new();
    let mut i: usize = 0;
    proof {
        assert(views(items@) =~= Seq::<Seq<char>>::empty());
    }
    while i < children.len()
        invariant
            i <= children@.len(),
            mimetypes_in(children@.take(i as int)) == Ok::<Seq<Seq<char>>, ParseErrorView>(
                views(items@),
            ),
        decreases children@.len() - i,
    {
        proof {
            assert(children@.take(i + 1).drop_last() =~= children@.take(i as int));
            assert(children@.take(i + 1).last() == children@[i as int]);
        }
        let item = match &children[i] {
            Node::Element(c) => match c.get_text() {
                Some(t) => Ok(t),
                None => Err(ParseError::missing_value("mimetype")),
            },
            _ => Err(ParseError::invalid_tag("mimetype")),
        };
        match item {
            Ok(t) => {
                proof {
                    lemma_views_push(items@, t);
                }
                items.push(t);
            },
            Err(err) => {
                proof {
                    lemma_mimetypes_fail(children@, i + 1);
                }
                return Err(err);
            },
        }
        i += 1;
    }
    proof {
        assert(children@.take(i as int) =~= children@);
    }
    Ok(items)
}

/// The keywords `m` after the children of a `keywords` element are read:
/// each child is an element whose text joins the list under its locale.
pub open spec fn keywords_in(m: Map<Seq<char>, Seq<Seq<char>>>, children: Seq<Node>) -> Result<
    Map<Seq<char>, Seq<Seq<char>>>,
    ParseErrorView,
>
    decreases children.len(),
{
    if children.len() == 0 {
        Ok(m)
    } else {
        match keywords_in(m, children.drop_last()) {
            Err(err) => Err(err),
            Ok(before) => match children.last() {
                Node::Element(c) => Ok(list_added(before, element_locale(c), element_text(c))),
                _ => Err(ParseErrorView::InvalidTag("keywords"@)),
            },
        }
    }
}

/// Where a prefix of the children fails, all of them fail in the same way.
pub proof fn lemma_keywords_fail(m: Map<Seq<char>, Seq<Seq<char>>>, children: Seq<Node>, k: int)
    requires
        0 <= k <= children.len(),
        keywords_in(m, children.take(k)) is Err,
    ensures
        keywords_in(m, children) == keywords_in(m, children.take(k)),
    decreases children.len() - k,
{
    if k == children.len() {
        assert(children.take(k) =~= children);
    } else {
        assert(children.take(k + 1).drop_last() =~= children.take(k));
        lemma_keywords_fail(m, children, k + 1);
    }
}

/// Reads the children of a `keywords` element into `list`.
pub fn read_keywords(list: TranslatableList, children: &Vec<Node>) -> (r: Result<
    TranslatableList,
    ParseError,
>)
    ensures
        result_view(r) == keywords_in(list@, children@),
{
    let mut out = list;
    let mut i: usize = 0;
    while i < children.len()
        invariant
            i <= children@.len(),
            keywords_in(list@, children@.take(i as int)) == Ok::<
                Map<Seq<char>, Seq<Seq<char>>>,
                ParseErrorView,
            >(out@),
        decreases children@.len() - i,
    {
        proof {
            assert(children@.take(i + 1).drop_last() =~= children@.take(i as int));
            assert(children@.take(i + 1).last() == children@[i as int]);
        }
        match &children[i] {
            Node::Element(c) => {
                out.add_for_element(c);
            },
            _ => {
                proof {
                    lemma_keywords_fail(list@, children@, i + 1);
                }
                return Err(ParseError::invalid_tag("keywords"));
            },
        }
        i += 1;
    }
    proof {
        assert(children@.take(i as int) =~= children@);
    }
    Ok(out)
}

/// The metadata `m` after the children of a `metadata` element are read:
/// each child is an element whose `key` attribute, which is required, is the
/// key, and whose text, if it has any, is the value.
pub open spec fn metadata_in(m: Map<Seq<char>, Option<Seq<char>>>, children: Seq<Node>) -> Result<
    Map<Seq<char>, Option<Seq<char>>>,
    ParseErrorView,
>
    decreases children.len(),
{
    if children.len() == 0 {
        Ok(m)
    } else {
        match metadata_in(m, children.drop_last()) {
            Err(err) => Err(err),
            Ok(before) => match children.last() {
                Node::Element(c) => match c.spec_attribute("key"@) {
                    Some(key) => Ok(before.insert(key, c.spec_text())),
                    None => Err(ParseErrorView::MissingAttribute("key"@, "value"@)),
                },
                _ => Err(ParseErrorView::InvalidTag("value"@)),
            },
        }
    }
}

/// Where a prefix of the children fails, all of them fail in the same way.
pub proof fn lemma_metadata_fail(m: Map<Seq<char>, Option<Seq<char>>>, children: Seq<Node>, k: int)
    requires
        0 <= k <= children.len(),
        metadata_in(m, children.take(k)) is Err,
    ensures
        metadata_in(m, children) == metadata_in(m, children.take(k)),
    decreases children.len() - k,
{
    if k == children.len() {
        assert(children.take(k) =~= children);
    } else {
        assert(children.take(k + 1).drop_last() =~= children.take(k));
        lemma_metadata_fail(m, children, k + 1);
    }
}

/// Reads the children of a `metadata` element into `builder`.
pub fn read_metadata(builder: ComponentBuilder, children: &Vec<Node>) -> (r: Result<
    ComponentBuilder,
    ParseError,
>)
    ensures
        match r {
            Ok(b) => metadata_in(builder@.metadata, children@) == Ok::<
                Map<Seq<char>, Option<Seq<char>>>,
                ParseErrorView,
            >(b@.metadata) && b@ == (ComponentBuilderView { metadata: b@.metadata, ..builder@ }),
            Err(err) => metadata_in(builder@.metadata, children@) == Err::<
                Map<Seq<char>, Option<Seq<char>>>,
                ParseErrorView,
            >(err@),
        },
{
    let mut out = builder;
    let mut i: usize = 0;
    while i < children.len()
        invariant
            i <= children@.len(),
            metadata_in(builder@.metadata, children@.take(i as int)) == Ok::<
                Map<Seq<char>, Option<Seq<char>>>,
                ParseErrorView,
            >(out@.metadata),
            out@ == (ComponentBuilderView { metadata: out@.metadata, ..builder@ }),
        decreases children@.len() - i,
    {
        proof {
            assert(children@.take(i + 1).drop_last() =~= children@.take(i as int));
            assert(children@.take(i + 1).last() == children@[i as int]);
        }
        let entry = match &children[i] {
            Node::Element(c) => match c.attribute("key") {
                Some(key) => Ok((key.clone(), c.get_text())),
                None => Err(ParseError::missing_attribute("key", "value")),
            },
            _ => Err(ParseError::invalid_tag("value")),
        };
        match entry {
            Ok((key, value)) => {
                out = out.metadata(key, value);
            },
            Err(err) => {
                proof {
                    lemma_metadata_fail(builder@.metadata, children@, i + 1);
                }
                return Err(err);
            },
        }
        i += 1;
    }
    proof {
        assert(children@.take(i as int) =~= children@);
    }
    Ok(out)
}

/// The component under construction `b` after child `node` of its element
/// is read. A `name`, `summary`, `developer_name` or `description` is added
/// to its text under the locale of the child; a license, a contact, a group
/// or a package name is set from the text of the child, which is required;
/// an `icon`, `extends`, `translation`, `launchable`, `url` or `bundle`
/// joins the list that it belongs to, and so do the children of a list such
/// as `categories`, `releases` or `requires`. Of several content ratings the
/// one with the highest version stays. A child with another tag, and a node
/// that is no element, is passed over.
pub open spec fn component_step(b: ComponentBuilderView, node: Node) -> Result<
    ComponentBuilderView,
    ParseErrorView,
> {
    match node {
        Node::Element(c) => if c.name@ == "name"@ {
            Ok(
                ComponentBuilderView {
                    name: Some(or_empty(b.name).insert(element_locale(c), element_text(c))),
                    ..b
                },
            )
        } else if c.name@ == "summary"@ {
            Ok(
                ComponentBuilderView {
                    summary: Some(or_empty(b.summary).insert(element_locale(c), element_text(c))),
                    ..b
                },
            )
        } else if c.name@ == "developer_name"@ {
            Ok(
                ComponentBuilderView {
                    developer_name: Some(
                        or_empty(b.developer_name).insert(element_locale(c), element_text(c)),
                    ),
                    ..b
                },
            )
        } else if c.name@ == "description"@ {
            Ok(
                ComponentBuilderView {
                    description: Some(
                        or_empty(b.description).insert(element_locale(c), markup_in(c.children@)),
                    ),
                    ..b
                },
            )
        } else if c.name@ == "project_license"@ {
            match License::spec_try_from(c) {
                Ok(v) => Ok(ComponentBuilderView { project_license: Some(v), ..b }),
                Err(err) => Err(err),
            }
        } else if c.name@ == "metadata_license"@ {
            match License::spec_try_from(c) {
                Ok(v) => Ok(ComponentBuilderView { metadata_license: Some(v), ..b }),
                Err(err) => Err(err),
            }
        } else if c.name@ == "icon"@ {
            match Icon::spec_try_from(c) {
                Ok(v) => Ok(ComponentBuilderView { icons: b.icons.push(v), ..b }),
                Err(err) => Err(err),
            }
        } else if c.name@ == "update_contact"@ {
            match c.spec_text() {
                Some(v) => Ok(ComponentBuilderView { update_contact: Some(v), ..b }),
                None => Err(ParseErrorView::MissingValue("update_contact"@)),
            }
        } else if c.name@ == "project_group"@ {
            match c.spec_text() {
                Some(v) => Ok(ComponentBuilderView { project_group: Some(v), ..b }),
                None => Err(ParseErrorView::MissingValue("project_group"@)),
            }
        } else if c.name@ == "compulsory_for_desktop"@ {
            match c.spec_text() {
                Some(v) => Ok(ComponentBuilderView { compulsory_for_desktop: Some(v), ..b }),
                None => Err(ParseErrorView::MissingValue("compulsory_for_desktop"@)),
            }
        } else if c.name@ == "pkgname"@ {
            match c.spec_text() {
                Some(v) => Ok(ComponentBuilderView { pkgname: Some(v), ..b }),
                None => Err(ParseErrorView::MissingValue("pkgname"@)),
            }
        } else if c.name@ == "categories"@ {
            match collected::<Category>(c.children@, "category"@) {
                Ok(items) => Ok(ComponentBuilderView { categories: b.categories + items, ..b }),
                Err(err) => Err(err),
            }
        } else if c.name@ == "source_pkgname"@ {
            match c.spec_text() {
                Some(v) => Ok(ComponentBuilderView { source_pkgname: Some(v), ..b }),
                None => Err(ParseErrorView::MissingValue("source_pkgname"@)),
            }
        } else if c.name@ == "keywords"@ {
            match keywords_in(or_empty(b.keywords), c.children@) {
                Ok(m) => Ok(
                    ComponentBuilderView {
                        keywords: if m == Map::<Seq<char>, Seq<Seq<char>>>::empty() {
                            None
                        } else {
                            Some(m)
                        },
                        ..b
                    },
                ),
                Err(err) => Err(err),
            }
        } else if c.name@ == "kudos"@ {
            match collected::<Kudo>(c.children@, "kudo"@) {
                Ok(items) => Ok(ComponentBuilderView { kudos: b.kudos + items, ..b }),
                Err(err) => Err(err),
            }
        } else if c.name@ == "mimetypes"@ {
            match mimetypes_in(c.children@) {
                Ok(items) => Ok(ComponentBuilderView { mimetypes: b.mimetypes + items, ..b }),
                Err(err) => Err(err),
            }
        } else if c.name@ == "screenshots"@ {
            match collected::<Screenshot>(c.children@, "screenshots"@) {
                Ok(items) => Ok(ComponentBuilderView { screenshots: b.screenshots + items, ..b }),
                Err(err) => Err(err),
            }
        } else if c.name@ == "releases"@ {
            match collected::<Release>(c.children@, "releases"@) {
                Ok(items) => Ok(ComponentBuilderView { releases: b.releases + items, ..b }),
                Err(err) => Err(err),
            }
        } else if c.name@ == "extends"@ {
            match AppId::spec_try_from(c) {
                Ok(v) => Ok(ComponentBuilderView { extends: b.extends.push(v), ..b }),
                Err(err) => Err(err),
            }
        } else if c.name@ == "translation"@ {
            match Translation::spec_try_from(c) {
                Ok(v) => Ok(ComponentBuilderView { translations: b.translations.push(v), ..b }),
                Err(err) => Err(err),
            }
        } else if c.name@ == "launchable"@ {
            match Launchable::spec_try_from(c) {
                Ok(v) => Ok(ComponentBuilderView { launchables: b.launchables.push(v), ..b }),
                Err(err) => Err(err),
            }
        } else if c.name@ == "content_rating"@ {
            match ContentRating::spec_try_from(c) {
                Ok(v) => Ok(
                    ComponentBuilderView {
                        content_rating: Some(retained(b.content_rating, v)),
                        ..b
                    },
                ),
                Err(err) => Err(err),
            }
        } else if c.name@ == "languages"@ {
            match collected::<Language>(c.children@, "languages"@) {
                Ok(items) => Ok(ComponentBuilderView { languages: b.languages + items, ..b }),
                Err(err) => Err(err),
            }
        } else if c.name@ == "provides"@ {
            match collected::<Provide>(c.children@, "prorivdes"@) {
                Ok(items) => Ok(ComponentBuilderView { provides: b.provides + items, ..b }),
                Err(err) => Err(err),
            }
        } else if c.name@ == "url"@ {
            match ProjectUrl::spec_try_from(c) {
                Ok(v) => Ok(ComponentBuilderView { urls: b.urls.push(v), ..b }),
                Err(err) => Err(err),
            }
        } else if c.name@ == "bundle"@ {
            match Bundle::spec_try_from(c) {
                Ok(v) => Ok(ComponentBuilderView { bundles: b.bundles.push(v), ..b }),
                Err(err) => Err(err),
            }
        } else if c.name@ == "suggests"@ {
            match collected::<AppId>(c.children@, "id"@) {
                Ok(items) => Ok(ComponentBuilderView { suggestions: b.suggestions + items, ..b }),
                Err(err) => Err(err),
            }
        } else if c.name@ == "metadata"@ {
            match metadata_in(b.metadata, c.children@) {
                Ok(m) => Ok(ComponentBuilderView { metadata: m, ..b }),
                Err(err) => Err(err),
            }
        } else if c.name@ == "requires"@ {
            match collected::<Requirement>(c.children@, "requires"@) {
                Ok(items) => Ok(ComponentBuilderView { requires: b.requires + items, ..b }),
                Err(err) => Err(err),
            }
        } else if c.name@ == "recommends"@ {
            match collected::<Requirement>(c.children@, "recommends"@) {
                Ok(items) => Ok(ComponentBuilderView { recommends: b.recommends + items, ..b }),
                Err(err) => Err(err),
            }
        } else if c.name@ == "supports"@ {
            match collected::<Requirement>(c.children@, "supports"@) {
                Ok(items) => Ok(ComponentBuilderView { supports: b.supports + items, ..b }),
                Err(err) => Err(err),
            }
        } else {
            Ok(b)
        },
        _ => Ok(b),
    }
}

/// The component under construction `b` after `children` are read in order;
/// the first child that fails decides the error.
pub open spec fn component_fold(b: ComponentBuilderView, children: Seq<Node>) -> Result<
    ComponentBuilderView,
    ParseErrorView,
>
    decreases children.len(),
{
    if children.len() == 0 {
        Ok(b)
    } else {
        match component_fold(b, children.drop_last()) {
            Ok(before) => component_step(before, children.last()),
            Err(err) => Err(err),
        }
    }
}

/// Where a prefix of the children fails, all of them fail in the same way.
pub proof fn lemma_component_fold_fails(b: ComponentBuilderView, children: Seq<Node>, k: int)
    requires
        0 <= k <= children.len(),
        component_fold(b, children.take(k)) is Err,
    ensures
        component_fold(b, children) == component_fold(b, children.take(k)),
    decreases children.len() - k,
{
    if k == children.len() {
        assert(children.take(k) =~= children);
    } else {
        assert(children.take(k + 1).drop_last() =~= children.take(k));
        lemma_component_fold_fails(b, children, k + 1);
    }
}

impl Component {
    /// The kind that the `type` attribute of a `component` element names:
    /// the generic one where the attribute is missing.
    pub open spec fn spec_kind(e: Element) -> Result<ComponentKind, ParseErrorView> {
        match e.spec_attribute("type"@) {
            Some(t) => ComponentKind::spec_from_str(t),
            None => Ok(ComponentKind::Generic),
        }
    }

    /// The identifier of a `component` element: the text of its first `id`
    /// child. The child is required, and so is its text.
    pub open spec fn spec_id(e: Element) -> Result<Seq<char>, ParseErrorView> {
        match e.spec_child("id"@) {
            None => Err(ParseErrorView::MissingTag("id"@)),
            Some(c) => AppId::spec_try_from(c),
        }
    }

    /// The component that a `component` element denotes. Its `id` child
    /// gives the identifier and its `type` attribute names the kind; they are
    /// read first, in this order. Then the children are read in order: see
    /// [`component_step`]. At least one `name` child is required: without
    /// one, the result is the error that the `name` tag is missing.
    pub open spec fn spec_try_from(e: Element) -> Result<ComponentView, ParseErrorView> {
        match Component::spec_id(e) {
            Err(err) => Err(err),
            Ok(id) => match Component::spec_kind(e) {
                Err(err) => Err(err),
                Ok(kind) => {
                    let start = ComponentBuilderView {
                        kind,
                        id: Some(id),
                        ..ComponentBuilderView::empty()
                    };
                    match component_fold(start, e.children@) {
                        Err(err) => Err(err),
                        Ok(b) => match b.build() {
                            Ok(c) => Ok(c),
                            Err(field) => Err(ParseErrorView::MissingTag(field)),
                        },
                    }
                },
            },
        }
    }

    /// Reads child `node` of a component element into `builder`.
    fn read_child(builder: ComponentBuilder, node: &Node) -> (r: Result<
        ComponentBuilder,
        ParseError,
    >)
        ensures
            result_view(r) == component_step(builder@, *node),
    {
        let mut b = builder;
        match node {
            Node::Element(c) => {
                let tag = c.name.as_str();
                if str_eq(tag, "name") {
                    let mut text = match b.name {
                        Some(t) => t,
                        None => TranslatableString::default(),
                    };
                    text.add_for_element(c);
                    b.name = Some(text);
                    Ok(b)
                } else if str_eq(tag, "summary") {
                    let mut text = match b.summary {
                        Some(t) => t,
                        None => TranslatableString::default(),
                    };
                    text.add_for_element(c);
                    b.summary = Some(text);
                    Ok(b)
                } else if str_eq(tag, "developer_name") {
                    let mut text = match b.developer_name {
                        Some(t) => t,
                        None => TranslatableString::default(),
                    };
                    text.add_for_element(c);
                    b.developer_name = Some(text);
                    Ok(b)
                } else if str_eq(tag, "description") {
                    let mut text = match b.description {
                        Some(t) => t,
                        None => MarkupTranslatableString::default(),
                    };
                    text.add_for_element(c);
                    b.description = Some(text);
                    Ok(b)
                } else if str_eq(tag, "project_license") {
                    match License::try_from(c) {
                        Ok(v) => Ok(b.project_license(v)),
                        Err(err) => Err(err),
                    }
                } else if str_eq(tag, "metadata_license") {
                    match License::try_from(c) {
                        Ok(v) => Ok(b.metadata_license(v)),
                        Err(err) => Err(err),
                    }
                } else if str_eq(tag, "icon") {
                    match Icon::try_from(c) {
                        Ok(v) => Ok(b.icon(v)),
                        Err(err) => Err(err),
                    }
                } else if str_eq(tag, "update_contact") {
                    match c.get_text() {
                        Some(v) => Ok(b.update_contact(v.as_str())),
                        None => Err(ParseError::missing_value("update_contact")),
                    }
                } else if str_eq(tag, "project_group") {
                    match c.get_text() {
                        Some(v) => Ok(b.project_group(v.as_str())),
                        None => Err(ParseError::missing_value("project_group")),
                    }
                } else if str_eq(tag, "compulsory_for_desktop") {
                    match c.get_text() {
                        Some(v) => Ok(b.compulsory_for_desktop(v.as_str())),
                        None => Err(ParseError::missing_value("compulsory_for_desktop")),
                    }
                } else if str_eq(tag, "pkgname") {
                    match c.get_text() {
                        Some(v) => Ok(b.pkgname(v.as_str())),
                        None => Err(ParseError::missing_value("pkgname")),
                    }
                } else if str_eq(tag, "categories") {
                    match collect::<Category>(&c.children, "category") {
                        Ok(mut items) => {
                            proof {
                                lemma_views_add(b.categories@, items@);
                            }
                            b.categories.append(&mut items);
                            Ok(b)
                        },
                        Err(err) => Err(err),
                    }
                } else if str_eq(tag, "source_pkgname") {
                    match c.get_text() {
                        Some(v) => Ok(b.source_pkgname(v.as_str())),
                        None => Err(ParseError::missing_value("source_pkgname")),
                    }
                } else if str_eq(tag, "keywords") {
                    let list = match b.keywords {
                        Some(l) => l,
                        None => TranslatableList::default(),
                    };
                    match read_keywords(list, &c.children) {
                        Ok(l) => {
                            b.keywords = if l.is_empty() {
                                None
                            } else {
                                Some(l)
                            };
                            Ok(b)
                        },
                        Err(err) => Err(err),
                    }
                } else if str_eq(tag, "kudos") {
                    match collect::<Kudo>(&c.children, "kudo") {
                        Ok(mut items) => {
                            proof {
                                lemma_views_add(b.kudos@, items@);
                            }
                            b.kudos.append(&mut items);
                            Ok(b)
                        },
                        Err(err) => Err(err),
                    }
                } else if str_eq(tag, "mimetypes") {
                    match read_mimetypes(&c.children) {
                        Ok(mut items) => {
                            proof {
                                lemma_views_add(b.mimetypes@, items@);
                            }
                            b.mimetypes.append(&mut items);
                            Ok(b)
                        },
                        Err(err) => Err(err),
                    }
                } else if str_eq(tag, "screenshots") {
                    match collect::<Screenshot>(&c.children, "screenshots") {
                        Ok(mut items) => {
                            proof {
                                lemma_views_add(b.screenshots@, items@);
                            }
                            b.screenshots.append(&mut items);
                            Ok(b)
                        },
                        Err(err) => Err(err),
                    }
                } else if str_eq(tag, "releases") {
                    match collect::<Release>(&c.children, "releases") {
                        Ok(mut items) => {
                            proof {
                                lemma_views_add(b.releases@, items@);
                            }
                            b.releases.append(&mut items);
                            Ok(b)
                        },
                        Err(err) => Err(err),
                    }
                } else if str_eq(tag, "extends") {
                    match AppId::try_from(c) {
                        Ok(v) => Ok(b.extend(v)),
                        Err(err) => Err(err),
                    }
                } else if str_eq(tag, "translation") {
                    match Translation::try_from(c) {
                        Ok(v) => Ok(b.translation(v)),
                        Err(err) => Err(err),
                    }
                } else if str_eq(tag, "launchable") {
                    match Launchable::try_from(c) {
                        Ok(v) => Ok(b.launchable(v)),
                        Err(err) => Err(err),
                    }
                } else if str_eq(tag, "content_rating") {
                    match ContentRating::try_from(c) {
                        Ok(v) => {
                            let kept = ContentRating::retain(b.content_rating, v);
                            b.content_rating = Some(kept);
                            Ok(b)
                        },
                        Err(err) => Err(err),
                    }
                } else if str_eq(tag, "languages") {
                    match collect::<Language>(&c.children, "languages") {
                        Ok(mut items) => {
                            proof {
                                lemma_views_add(b.languages@, items@);
                            }
                            b.languages.append(&mut items);
                            Ok(b)
                        },
                        Err(err) => Err(err),
                    }
                } else if str_eq(tag, "provides") {
                    match collect::<Provide>(&c.children, "prorivdes") {
                        Ok(mut items) => {
                            proof {
                                lemma_views_add(b.provides@, items@);
                            }
                            b.provides.append(&mut items);
                            Ok(b)
                        },
                        Err(err) => Err(err),
                    }
                } else if str_eq(tag, "url") {
                    match ProjectUrl::try_from(c) {
                        Ok(v) => Ok(b.url(v)),
                        Err(err) => Err(err),
                    }
                } else if str_eq(tag, "bundle") {
                    match Bundle::try_from(c) {
                        Ok(v) => Ok(b.bundle(v)),
                        Err(err) => Err(err),
                    }
                } else if str_eq(tag, "suggests") {
                    match collect::<AppId>(&c.children, "id") {
                        Ok(mut items) => {
                            proof {
                                lemma_views_add(b.suggestions@, items@);
                            }
                            b.suggestions.append(&mut items);
                            Ok(b)
                        },
                        Err(err) => Err(err),
                    }
                } else if str_eq(tag, "metadata") {
                    read_metadata(b, &c.children)
                } else if str_eq(tag, "requires") {
                    match collect::<Requirement>(&c.children, "requires") {
                        Ok(mut items) => {
                            proof {
                                lemma_views_add(b.requires@, items@);
                            }
                            b.requires.append(&mut items);
                            Ok(b)
                        },
                        Err(err) => Err(err),
                    }
                } else if str_eq(tag, "recommends") {
                    match collect::<Requirement>(&c.children, "recommends") {
                        Ok(mut items) => {
                            proof {
                                lemma_views_add(b.recommends@, items@);
                            }
                            b.recommends.append(&mut items);
                            Ok(b)
                        },
                        Err(err) => Err(err),
                    }
                } else if str_eq(tag, "supports") {
                    match collect::<Requirement>(&c.children, "supports") {
                        Ok(mut items) => {
                            proof {
                                lemma_views_add(b.supports@, items@);
                            }
                            b.supports.append(&mut items);
                            Ok(b)
                        },
                        Err(err) => Err(err),
                    }
                } else {
                    Ok(b)
                }
            },
            _ => Ok(b),
        }
    }
}

impl Component {
    /// Reads the component that `e` denotes: see [`Component::spec_try_from`].
    pub fn try_from(e: &Element) -> (r: Result<Self, ParseError>)
        ensures
            result_view(r) == Component::spec_try_from(*e),
    {
        let id = match e.get_child("id") {
            None => { return Err(ParseError::missing_tag("id")); },
            Some(c) => match AppId::try_from(c) {
                Ok(id) => id,
                Err(err) => { return Err(err); },
            },
        };
        let kind = match e.attribute("type") {
            Some(t) => match ComponentKind::from_str(t.as_str()) {
                Ok(k) => k,
                Err(err) => { return Err(err); },
            },
            None => ComponentKind::Generic,
        };
        let mut builder = ComponentBuilder::default().kind(kind).id(id);
        let ghost start = builder@;
        let mut i: usize = 0;
        while i < e.children.len()
            invariant
                i <= e.children@.len(),
                Component::spec_try_from(*e) == match component_fold(start, e.children@) {
                    Err(err) => Err(err),
                    Ok(b) => match b.build() {
                        Ok(c) => Ok(c),
                        Err(field) => Err(ParseErrorView::MissingTag(field)),
                    },
                },
                component_fold(start, e.children@.take(i as int)) == Ok::<
                    ComponentBuilderView,
                    ParseErrorView,
                >(builder@),
            decreases e.children@.len() - i,
        {
            proof {
                assert(e.children@.take(i + 1).drop_last() =~= e.children@.take(i as int));
                assert(e.children@.take(i + 1).last() == e.children@[i as int]);
            }
            match Component::read_child(builder, &e.children[i]) {
                Ok(next) => {
                    builder = next;
                },
                Err(err) => {
                    proof {
                        lemma_component_fold_fails(start, e.children@, i + 1);
                    }
                    return Err(err);
                },
            }
            i += 1;
        }
        proof {
            assert(e.children@.take(i as int) =~= e.children@);
        }
        match builder.build() {
            Ok(c) => Ok(c),
            Err(field) => Err(ParseError::MissingTag(field.0)),
        }
    }
}

impl FromElement for Component {
    open spec fn spec_from_element(e: Element) -> Result<ComponentView, ParseErrorView> {
        Component::spec_try_from(e)
    }

    fn from_element(e: &Element) -> (r: Result<Self, ParseError>) {
        Component::try_from(e)
    }

    proof fn lemma_model_decides(a: Element, b: Element) {
        lemma_same_id_and_kind(a, b);
        match (Component::spec_id(a), Component::spec_kind(a)) {
            (Ok(id), Ok(kind)) => {
                lemma_same_component_fold(
                    ComponentBuilderView { kind, id: Some(id), ..ComponentBuilderView::empty() },
                    a.children@,
                    b.children@,
                );
            },
            _ => {},
        }
    }
}

/// A component element without an `id` child fails with the error that the
/// `id` tag is missing, whatever else it holds.
pub proof fn lemma_missing_id(e: Element)
    requires
        e.spec_child("id"@) is None,
    ensures
        Component::spec_try_from(e) == Err::<ComponentView, ParseErrorView>(
            ParseErrorView::MissingTag("id"@),
        ),
{
}

/// The elements among `children` whose tag is `tag`, in order.
pub open spec fn elements_named(children: Seq<Node>, tag: Seq<char>) -> Seq<Element>
    decreases children.len(),
{
    if children.len() == 0 {
        Seq::empty()
    } else {
        let before = elements_named(children.drop_last(), tag);
        match children.last() {
            Node::Element(c) => if c.name@ == tag {
                before.push(c)
            } else {
                before
            },
            _ => before,
        }
    }
}

/// The texts of `elements` put into `m`, each under its locale, in order.
pub open spec fn texts_added(m: Map<Seq<char>, Seq<char>>, elements: Seq<Element>) -> Map<
    Seq<char>,
    Seq<char>,
>
    decreases elements.len(),
{
    if elements.len() == 0 {
        m
    } else {
        texts_added(m, elements.drop_last()).insert(
            element_locale(elements.last()),
            element_text(elements.last()),
        )
    }
}

/// Texts put into the empty map are the collected texts.
pub proof fn lemma_texts_added_to_empty(elements: Seq<Element>)
    ensures
        texts_added(Map::empty(), elements) == collected_texts(elements),
    decreases elements.len(),
{
    if elements.len() > 0 {
        lemma_texts_added_to_empty(elements.drop_last());
    }
}

/// One child of a component element changes the name only if it is a `name`
/// element, whose text it adds under its locale; it leaves the identifier
/// and the kind as they are.
pub proof fn lemma_step_keeps_name(b: ComponentBuilderView, node: Node)
    requires
        component_step(b, node) is Ok,
    ensures
        or_empty(component_step(b, node)->Ok_0.name) == match node {
            Node::Element(c) => if c.name@ == "name"@ {
                or_empty(b.name).insert(element_locale(c), element_text(c))
            } else {
                or_empty(b.name)
            },
            _ => or_empty(b.name),
        },
        b.name is Some ==> component_step(b, node)->Ok_0.name is Some,
        component_step(b, node)->Ok_0.name is Some ==> b.name is Some || (node matches
            Node::Element(c) && c.name@ == "name"@),
        component_step(b, node)->Ok_0.id == b.id,
        component_step(b, node)->Ok_0.kind == b.kind,
{
    match node {
        Node::Element(c) => {
            if c.name@ == "name"@ {
            } else if c.name@ == "summary"@ {
            } else if c.name@ == "developer_name"@ {
            } else if c.name@ == "description"@ {
            } else if c.name@ == "project_license"@ {
            } else if c.name@ == "metadata_license"@ {
            } else if c.name@ == "icon"@ {
            } else if c.name@ == "update_contact"@ {
            } else if c.name@ == "project_group"@ {
            } else if c.name@ == "compulsory_for_desktop"@ {
            } else if c.name@ == "pkgname"@ {
            } else if c.name@ == "categories"@ {
            } else if c.name@ == "source_pkgname"@ {
            } else if c.name@ == "keywords"@ {
            } else if c.name@ == "kudos"@ {
            } else if c.name@ == "mimetypes"@ {
            } else if c.name@ == "screenshots"@ {
            } else if c.name@ == "releases"@ {
            } else if c.name@ == "extends"@ {
            } else if c.name@ == "translation"@ {
            } else if c.name@ == "launchable"@ {
            } else if c.name@ == "content_rating"@ {
            } else if c.name@ == "languages"@ {
            } else if c.name@ == "provides"@ {
            } else if c.name@ == "url"@ {
            } else if c.name@ == "bundle"@ {
            } else if c.name@ == "suggests"@ {
            } else if c.name@ == "metadata"@ {
            } else if c.name@ == "requires"@ {
            } else if c.name@ == "recommends"@ {
            } else if c.name@ == "supports"@ {
            } else {
            }
        },
        _ => {},
    }
}

/// Whether `tag` is one of the tags that are read from the children of a
/// component element.
pub open spec fn is_component_tag(tag: Seq<char>) -> bool {
    ||| tag == "name"@
    ||| tag == "summary"@
    ||| tag == "developer_name"@
    ||| tag == "description"@
    ||| tag == "project_license"@
    ||| tag == "metadata_license"@
    ||| tag == "icon"@
    ||| tag == "update_contact"@
    ||| tag == "project_group"@
    ||| tag == "compulsory_for_desktop"@
    ||| tag == "pkgname"@
    ||| tag == "categories"@
    ||| tag == "source_pkgname"@
    ||| tag == "keywords"@
    ||| tag == "kudos"@
    ||| tag == "mimetypes"@
    ||| tag == "screenshots"@
    ||| tag == "releases"@
    ||| tag == "extends"@
    ||| tag == "translation"@
    ||| tag == "launchable"@
    ||| tag == "content_rating"@
    ||| tag == "languages"@
    ||| tag == "provides"@
    ||| tag == "url"@
    ||| tag == "bundle"@
    ||| tag == "suggests"@
    ||| tag == "metadata"@
    ||| tag == "requires"@
    ||| tag == "recommends"@
    ||| tag == "supports"@
}

/// A child of a component element with a tag that is not known, and a node
/// that is no element, is passed over: it is no error, and it changes nothing.
pub proof fn lemma_unknown_child_is_passed_over(b: ComponentBuilderView, node: Node)
    requires
        match node {
            Node::Element(c) => !is_component_tag(c.name@),
            _ => true,
        },
    ensures
        component_step(b, node) == Ok::<ComponentBuilderView, ParseErrorView>(b),
{
}

/// An `id` child of a component element is passed over when the children
/// are read.
pub proof fn lemma_id_is_passed_over(b: ComponentBuilderView, c: Element)
    requires
        c.name@ == "id"@,
    ensures
        component_step(b, Node::Element(c)) == Ok::<ComponentBuilderView, ParseErrorView>(b),
{
    reveal_strlit("id");
    reveal_strlit("name");
    reveal_strlit("summary");
    reveal_strlit("developer_name");
    reveal_strlit("description");
    reveal_strlit("project_license");
    reveal_strlit("metadata_license");
    reveal_strlit("icon");
    reveal_strlit("update_contact");
    reveal_strlit("project_group");
    reveal_strlit("compulsory_for_desktop");
    reveal_strlit("pkgname");
    reveal_strlit("categories");
    reveal_strlit("source_pkgname");
    reveal_strlit("keywords");
    reveal_strlit("kudos");
    reveal_strlit("mimetypes");
    reveal_strlit("screenshots");
    reveal_strlit("releases");
    reveal_strlit("extends");
    reveal_strlit("translation");
    reveal_strlit("launchable");
    reveal_strlit("content_rating");
    reveal_strlit("languages");
    reveal_strlit("provides");
    reveal_strlit("url");
    reveal_strlit("bundle");
    reveal_strlit("suggests");
    reveal_strlit("metadata");
    reveal_strlit("requires");
    reveal_strlit("recommends");
    reveal_strlit("supports");
    assert(c.name@.len() == 2);
}

/// Reading the children of a component element leaves as its name the texts
/// of the `name` children, each under its locale, added to the name that was
/// there; no other child changes the name.
pub proof fn lemma_fold_collects_names(b: ComponentBuilderView, children: Seq<Node>)
    requires
        component_fold(b, children) is Ok,
    ensures
        or_empty(component_fold(b, children)->Ok_0.name) == texts_added(
            or_empty(b.name),
            elements_named(children, "name"@),
        ),
        b.name is Some ==> component_fold(b, children)->Ok_0.name is Some,
        b.name is None && elements_named(children, "name"@).len() == 0 ==> component_fold(
            b,
            children,
        )->Ok_0.name is None,
        component_fold(b, children)->Ok_0.id == b.id,
        component_fold(b, children)->Ok_0.kind == b.kind,
    decreases children.len(),
{
    if children.len() > 0 {
        lemma_fold_collects_names(b, children.drop_last());
        lemma_step_keeps_name(component_fold(b, children.drop_last())->Ok_0, children.last());
        let before = elements_named(children.drop_last(), "name"@);
        match children.last() {
            Node::Element(c) => {
                if c.name@ == "name"@ {
                    assert(before.push(c).drop_last() =~= before);
                    assert(before.push(c).last() == c);
                }
            },
            _ => {},
        }
    }
}

/// The name of a component is the map of the texts of the `name` children
/// of its element, each under its locale, and there is such a child. So
/// `name` children with locales
/// that differ from one another, at most one of them without a locale, give
/// a name with one entry for each of them: see
/// [`crate::translatable_string::lemma_distinct_locales_collected`].
pub proof fn lemma_name_is_collected(e: Element)
    requires
        Component::spec_try_from(e) is Ok,
    ensures
        Component::spec_try_from(e)->Ok_0.name == collected_texts(
            elements_named(e.children@, "name"@),
        ),
        elements_named(e.children@, "name"@).len() > 0,
{
    let kind = Component::spec_kind(e)->Ok_0;
    let id = Component::spec_id(e)->Ok_0;
    let start = ComponentBuilderView { kind, id: Some(id), ..ComponentBuilderView::empty() };
    lemma_fold_collects_names(start, e.children@);
    lemma_texts_added_to_empty(elements_named(e.children@, "name"@));
}

/// A component element without a `name` child fails: where nothing else
/// fails before, with the error that the `name` tag is missing.
pub proof fn lemma_missing_name(e: Element)
    requires
        elements_named(e.children@, "name"@).len() == 0,
    ensures
        Component::spec_try_from(e) is Err,
        Component::spec_id(e) is Ok && Component::spec_kind(e) is Ok && component_fold(
            ComponentBuilderView {
                kind: Component::spec_kind(e)->Ok_0,
                id: Some(Component::spec_id(e)->Ok_0),
                ..ComponentBuilderView::empty()
            },
            e.children@,
        ) is Ok ==> Component::spec_try_from(e) == Err::<ComponentView, ParseErrorView>(
            ParseErrorView::MissingTag("name"@),
        ),
{
    if Component::spec_id(e) is Ok && Component::spec_kind(e) is Ok {
        let start = ComponentBuilderView {
            kind: Component::spec_kind(e)->Ok_0,
            id: Some(Component::spec_id(e)->Ok_0),
            ..ComponentBuilderView::empty()
        };
        if component_fold(start, e.children@) is Ok {
            lemma_fold_collects_names(start, e.children@);
        }
    }
}

/// Whether `e` is the least document of a component with identifier `id`
/// and name `name`: an element without attributes whose children are an `id`
/// element and a `name` element, each without attributes and with its text
/// as its one child.
pub open spec fn is_minimal_component(e: Element, id: Seq<char>, name: Seq<char>) -> bool {
    &&& e.attributes@.len() == 0
    &&& e.children@.len() == 2
    &&& is_text_element(e.children@[0], "id"@, id)
    &&& is_text_element(e.children@[1], "name"@, name)
}

/// Whether `node` is an element with tag `tag`, without attributes, whose one
/// child is the text `text`.
pub open spec fn is_text_element(node: Node, tag: Seq<char>, text: Seq<char>) -> bool {
    match node {
        Node::Element(c) => {
            &&& c.name@ == tag
            &&& c.attributes@.len() == 0
            &&& c.children@.len() == 1
            &&& match c.children@[0] {
                Node::Text(t) => t@ == text,
                _ => false,
            }
        },
        _ => false,
    }
}

/// The component with identifier `id` and name `name` under the default
/// locale, and nothing else: what a builder gives in which only these two
/// are set.
pub open spec fn minimal_component(id: Seq<char>, name: Seq<char>) -> Result<
    ComponentView,
    Seq<char>,
> {
    (ComponentBuilderView {
        id: Some(id),
        name: Some(Map::<Seq<char>, Seq<char>>::empty().insert(DEFAULT_LOCALE@, name)),
        ..ComponentBuilderView::empty()
    }).build()
}

/// The least document of a component converts to the component that a
/// builder gives in which only the identifier and the name are set.
pub proof fn lemma_minimal_round_trip(e: Element, id: Seq<char>, name: Seq<char>)
    requires
        is_minimal_component(e, id, name),
    ensures
        minimal_component(id, name) is Ok,
        Component::spec_try_from(e) == Ok::<ComponentView, ParseErrorView>(
            minimal_component(id, name)->Ok_0,
        ),
{
    reveal_strlit("id");
    reveal_strlit("name");
    let first = e.children@[0]->Element_0;
    let second = e.children@[1]->Element_0;
    let start = ComponentBuilderView {
        kind: ComponentKind::Generic,
        id: Some(id),
        ..ComponentBuilderView::empty()
    };
    assert(e.spec_attribute("type"@) is None);
    assert(first.spec_text() == Some(id)) by {
        assert(first.children@.drop_last().len() == 0);
        reveal_with_fuel(crate::element::text_in, 2);
    }
    assert(second.spec_text() == Some(name)) by {
        assert(second.children@.drop_last().len() == 0);
        reveal_with_fuel(crate::element::text_in, 2);
    }
    assert(second.spec_attribute("lang"@) is None);
    assert(e.spec_child("id"@) == Some(first));
    lemma_id_is_passed_over(start, first);
    let one = e.children@.drop_last();
    assert(one.len() == 1);
    assert(one.drop_last().len() == 0);
    assert(one.last() == e.children@[0]);
    assert(component_fold(start, one) == Ok::<ComponentBuilderView, ParseErrorView>(start)) by {
        reveal_with_fuel(component_fold, 2);
    }
    assert(e.children@.last() == e.children@[1]);
}

impl Component {
    /// The component of a document that was read: the component that its root
    /// element denotes, or the error of the parser where the document could
    /// not be read.
    pub fn from_document(document: Result<Element, ParseError>) -> (r: Result<
        Component,
        ParseError,
    >)
        ensures
            match document {
                Ok(e) => result_view(r) == Component::spec_try_from(e),
                Err(err) => r == Err::<Component, ParseError>(err),
            },
    {
        match document {
            Ok(e) => Component::try_from(&e),
            Err(err) => Err(err),
        }
    }

    /// The component that an element with model `m` denotes.
    pub open spec fn spec_of_model(m: ElementModel) -> Result<ComponentView, ParseErrorView> {
        Component::spec_try_from(choose|e: Element| e.model() == m)
    }

    /// The component of a document, where `read` is what the document
    /// denotes: the component of its root element, or the error of the parser.
    pub open spec fn spec_of_document(read: Result<ElementModel, Seq<char>>) -> Result<
        ComponentView,
        ParseErrorView,
    > {
        match read {
            Ok(m) => Component::spec_of_model(m),
            Err(msg) => Err(ParseErrorView::XmlParserError(msg)),
        }
    }

    /// Create a new `Component` from the bytes of an XML document: the
    /// component that the root element of the document denotes.
    pub fn from_bytes(bytes: &[u8]) -> (r: Result<Component, ParseError>)
        ensures
            result_view(r) == Component::spec_of_document(xml_document(bytes@)),
    {
        let document = Element::parse(bytes);
        proof {
            if document is Ok {
                let e = document->Ok_0;
                let m = e.model();
                Component::lemma_model_decides(e, choose|x: Element| x.model() == m);
            }
        }
        Component::from_document(document)
    }

    /// Create a new `Component` from gzipped bytes: the component that the root
    /// element of the document denotes.
    pub fn from_gzipped_bytes(bytes: &[u8]) -> (r: Result<Component, ParseError>)
        ensures
            result_view(r) == Component::spec_of_document(gzipped_xml_document(bytes@)),
    {
        let document = Element::parse_gzipped(bytes);
        proof {
            if document is Ok {
                let e = document->Ok_0;
                let m = e.model();
                Component::lemma_model_decides(e, choose|x: Element| x.model() == m);
            }
        }
        Component::from_document(document)
    }
}

/// Children with the same models name the same MIME types.
pub proof fn lemma_same_mimetypes(a: Seq<Node>, b: Seq<Node>)
    requires
        nodes_model(a) == nodes_model(b),
    ensures
        mimetypes_in(a) == mimetypes_in(b),
    decreases a.len(),
{
    lemma_same_models_split(a, b);
    if a.len() > 0 {
        lemma_same_mimetypes(a.drop_last(), b.drop_last());
        lemma_same_node_model(a.last(), b.last());
        match (a.last(), b.last()) {
            (Node::Element(x), Node::Element(y)) => {
                lemma_same_text(x, y);
            },
            _ => {},
        }
    }
}

/// Children with the same models add the same keywords.
pub proof fn lemma_same_keywords(m: Map<Seq<char>, Seq<Seq<char>>>, a: Seq<Node>, b: Seq<Node>)
    requires
        nodes_model(a) == nodes_model(b),
    ensures
        keywords_in(m, a) == keywords_in(m, b),
    decreases a.len(),
{
    lemma_same_models_split(a, b);
    if a.len() > 0 {
        lemma_same_keywords(m, a.drop_last(), b.drop_last());
        lemma_same_node_model(a.last(), b.last());
        match (a.last(), b.last()) {
            (Node::Element(x), Node::Element(y)) => {
                lemma_same_locale_and_text(x, y);
            },
            _ => {},
        }
    }
}

/// Children with the same models add the same metadata.
pub proof fn lemma_same_metadata(m: Map<Seq<char>, Option<Seq<char>>>, a: Seq<Node>, b: Seq<Node>)
    requires
        nodes_model(a) == nodes_model(b),
    ensures
        metadata_in(m, a) == metadata_in(m, b),
    decreases a.len(),
{
    lemma_same_models_split(a, b);
    if a.len() > 0 {
        lemma_same_metadata(m, a.drop_last(), b.drop_last());
        lemma_same_node_model(a.last(), b.last());
        match (a.last(), b.last()) {
            (Node::Element(x), Node::Element(y)) => {
                lemma_same_text(x, y);
                lemma_same_attribute(x, y, "key"@);
            },
            _ => {},
        }
    }
}

/// Nodes with the same model change a component in the same way.
pub proof fn lemma_same_component_step(s: ComponentBuilderView, a: Node, b: Node)
    requires
        node_model(a) == node_model(b),
    ensures
        component_step(s, a) == component_step(s, b),
{
    lemma_same_node_model(a, b);
    match (a, b) {
        (Node::Element(x), Node::Element(y)) => {
            if x.name@ == "name"@ {
                lemma_same_locale_and_text(x, y);
            } else if x.name@ == "summary"@ {
                lemma_same_locale_and_text(x, y);
            } else if x.name@ == "developer_name"@ {
                lemma_same_locale_and_text(x, y);
            } else if x.name@ == "description"@ {
                lemma_same_locale_and_text(x, y);
            } else if x.name@ == "project_license"@ {
                lemma_license_model_decides(x, y);
            } else if x.name@ == "metadata_license"@ {
                lemma_license_model_decides(x, y);
            } else if x.name@ == "icon"@ {
                lemma_icon_model_decides(x, y);
            } else if x.name@ == "update_contact"@ {
                lemma_same_text(x, y);
            } else if x.name@ == "project_group"@ {
                lemma_same_text(x, y);
            } else if x.name@ == "compulsory_for_desktop"@ {
                lemma_same_text(x, y);
            } else if x.name@ == "pkgname"@ {
                lemma_same_text(x, y);
            } else if x.name@ == "categories"@ {
                lemma_same_collected::<Category>(x.children@, y.children@, "category"@);
            } else if x.name@ == "source_pkgname"@ {
                lemma_same_text(x, y);
            } else if x.name@ == "keywords"@ {
                lemma_same_keywords(or_empty(s.keywords), x.children@, y.children@);
            } else if x.name@ == "kudos"@ {
                lemma_same_collected::<Kudo>(x.children@, y.children@, "kudo"@);
            } else if x.name@ == "mimetypes"@ {
                lemma_same_mimetypes(x.children@, y.children@);
            } else if x.name@ == "screenshots"@ {
                lemma_same_collected::<Screenshot>(x.children@, y.children@, "screenshots"@);
            } else if x.name@ == "releases"@ {
                lemma_same_collected::<Release>(x.children@, y.children@, "releases"@);
            } else if x.name@ == "extends"@ {
                AppId::lemma_model_decides(x, y);
            } else if x.name@ == "translation"@ {
                lemma_translation_model_decides(x, y);
            } else if x.name@ == "launchable"@ {
                lemma_launchable_model_decides(x, y);
            } else if x.name@ == "content_rating"@ {
                lemma_content_rating_model_decides(x, y);
            } else if x.name@ == "languages"@ {
                lemma_same_collected::<Language>(x.children@, y.children@, "languages"@);
            } else if x.name@ == "provides"@ {
                lemma_same_collected::<Provide>(x.children@, y.children@, "prorivdes"@);
            } else if x.name@ == "url"@ {
                lemma_project_url_model_decides(x, y);
            } else if x.name@ == "bundle"@ {
                lemma_bundle_model_decides(x, y);
            } else if x.name@ == "suggests"@ {
                lemma_same_collected::<AppId>(x.children@, y.children@, "id"@);
            } else if x.name@ == "metadata"@ {
                lemma_same_metadata(s.metadata, x.children@, y.children@);
            } else if x.name@ == "requires"@ {
                lemma_same_collected::<Requirement>(x.children@, y.children@, "requires"@);
            } else if x.name@ == "recommends"@ {
                lemma_same_collected::<Requirement>(x.children@, y.children@, "recommends"@);
            } else if x.name@ == "supports"@ {
                lemma_same_collected::<Requirement>(x.children@, y.children@, "supports"@);
            }
        },
        _ => {},
    }
}

/// Children with the same models change a component in the same way.
pub proof fn lemma_same_component_fold(s: ComponentBuilderView, a: Seq<Node>, b: Seq<Node>)
    requires
        nodes_model(a) == nodes_model(b),
    ensures
        component_fold(s, a) == component_fold(s, b),
    decreases a.len(),
{
    lemma_same_models_split(a, b);
    if a.len() > 0 {
        lemma_same_component_fold(s, a.drop_last(), b.drop_last());
        match component_fold(s, a.drop_last()) {
            Ok(before) => {
                lemma_same_component_step(before, a.last(), b.last());
            },
            Err(_) => {},
        }
    }
}

/// Elements with the same model have the same identifier and the same kind.
pub proof fn lemma_same_id_and_kind(a: Element, b: Element)
    requires
        a.model() == b.model(),
    ensures
        Component::spec_id(a) == Component::spec_id(b),
        Component::spec_kind(a) == Component::spec_kind(b),
{
    lemma_same_attribute(a, b, "type"@);
    lemma_same_child_in(a.children@, b.children@, "id"@);
    match (a.spec_child("id"@), b.spec_child("id"@)) {
        (Some(x), Some(y)) => {
            AppId::lemma_model_decides(x, y);
        },
        _ => {},
    }
}

} // verus!
