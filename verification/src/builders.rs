//! Various helpers to build any appstream type.
use vstd::prelude::*;
use url::Url;
use crate::app_id::AppId;
use crate::collection::{Collection, CollectionView};
use crate::component::{metadata_view, Component, ComponentView};
use crate::content_rating::{ContentRating, ContentRatingView};
use crate::dates::DateTime;
use crate::enums::bundle::{Bundle, BundleView};
use crate::enums::category::{Category, CategoryView};
use crate::enums::checksum::{Checksum, ChecksumView};
use crate::enums::icon::{Icon, IconView};
use crate::enums::kinds::{
    ArtifactKind, ComponentKind, ImageKind, IssueKind, ReleaseKind, ReleaseUrgency,
};
use crate::enums::kudo::{Kudo, KudoView};
use crate::enums::launchable::{Launchable, LaunchableView};
use crate::enums::project_url::ProjectUrl;
use crate::enums::provide::{Provide, ProvideView};
use crate::enums::size::Size;
use crate::enums::translation::{Translation, TranslationView};
use crate::language::{Language, LanguageView};
use crate::license::License;
use crate::release::{Artifact, ArtifactView, Issue, IssueView, Release, ReleaseView};
use crate::requirements::{Requirement, RequirementView};
use crate::screenshot::{Image, Screenshot, ScreenshotView, Video, VideoView};
use crate::string_map::{lemma_same_map, StringMap};
use crate::translatable_string::{MarkupTranslatableString, TranslatableList, TranslatableString};
use crate::views::{lemma_views_push, option_view, result_view, views};

verus! {

/// The error of a builder that lacks a field which its type requires: the
/// name of the field.
#[derive(Clone, Debug, PartialEq, Eq)]
pub struct MissingField(pub String);

impl View for MissingField {
    type V = Seq<char>;

    open spec fn view(&self) -> Seq<char> {
        self.0@
    }
}

/// A helper to build an `Artifact`.
#[derive(Debug)]
pub struct ArtifactBuilder {
    /// The targeted platform.
    pub platform: Option<String>,
    /// The artifact kind.
    pub kind: Option<ArtifactKind>,
    /// The downloaded/installed sizes.
    pub sizes: Vec<Size>,
    /// The download url.
    pub url: Option<Url>,
    /// The various checksums to validate the artifact.
    pub checksums: Vec<Checksum>,
    /// The various bundles to grab the artifact from other 3rd-party
    /// installers.
    pub bundles: Vec<Bundle>,
}

/// An [`ArtifactBuilder`] with its parts as views.
pub struct ArtifactBuilderView {
    pub platform: Option<Seq<char>>,
    pub kind: Option<ArtifactKind>,
    pub sizes: Seq<Size>,
    pub url: Option<Url>,
    pub checksums: Seq<ChecksumView>,
    pub bundles: Seq<BundleView>,
}

impl View for ArtifactBuilder {
    type V = ArtifactBuilderView;

    open spec fn view(&self) -> ArtifactBuilderView {
        ArtifactBuilderView {
            platform: option_view(self.platform),
            kind: self.kind,
            sizes: self.sizes@,
            url: self.url,
            checksums: views(self.checksums@),
            bundles: views(self.bundles@),
        }
    }
}

impl ArtifactBuilderView {
    /// The builder in which nothing is set.
    pub open spec fn empty() -> ArtifactBuilderView {
        ArtifactBuilderView {
            platform: None,
            kind: None,
            sizes: Seq::empty(),
            url: None,
            checksums: Seq::empty(),
            bundles: Seq::empty(),
        }
    }

    /// The artifact that the builder gives, or the name of the first required
    /// field that it lacks: the address, then the kind.
    pub open spec fn build(self) -> Result<ArtifactView, Seq<char>> {
        match self.url {
            None => Err("url"@),
            Some(url) => match self.kind {
                None => Err("kind"@),
                Some(kind) => Ok(
                    ArtifactView {
                        platform: self.platform,
                        kind,
                        sizes: self.sizes,
                        url,
                        checksums: self.checksums,
                        bundles: self.bundles,
                    },
                ),
            },
        }
    }
}

impl Default for ArtifactBuilder {
    fn default() -> (r: Self)
        ensures
            r@ == ArtifactBuilderView::empty(),
    {
        let r = ArtifactBuilder {
            platform: None,
            kind: None,
            sizes: Vec::new(),
            url: None,
            checksums: Vec::new(),
            bundles: Vec::new(),
        };
        assert(views(r.checksums@) =~= Seq::<ChecksumView>::empty());
        assert(views(r.bundles@) =~= Seq::<BundleView>::empty());
        r
    }
}

impl ArtifactBuilder {
    /// Sets the artifact kind.
    #[must_use]
    pub fn kind(self, kind: ArtifactKind) -> (r: Self)
        ensures
            r@ == (ArtifactBuilderView { kind: Some(kind), ..self@ }),
    {
        let mut b = self;
        b.kind = Some(kind);
        b
    }

    /// Sets the artifact download url.
    #[must_use]
    pub fn url(self, url: Url) -> (r: Self)
        ensures
            r@ == (ArtifactBuilderView { url: Some(url), ..self@ }),
    {
        let mut b = self;
        b.url = Some(url);
        b
    }

    /// Adds a `Bundle` to the artifact as a 3rd-party source to install it.
    #[must_use]
    pub fn bundle(self, bundle: Bundle) -> (r: Self)
        ensures
            r@ == (ArtifactBuilderView { bundles: self@.bundles.push(bundle@), ..self@ }),
    {
        let mut b = self;
        proof {
            lemma_views_push(b.bundles@, bundle);
        }
        b.bundles.push(bundle);
        b
    }

    /// Adds a `Size` to the artifact to specify the downloaded/installed sizes.
    #[must_use]
    pub fn size(self, size: Size) -> (r: Self)
        ensures
            r@ == (ArtifactBuilderView { sizes: self@.sizes.push(size), ..self@ }),
    {
        let mut b = self;
        b.sizes.push(size);
        b
    }

    /// Adds a `Checksum` to the artifact.
    #[must_use]
    pub fn checksum(self, checksum: Checksum) -> (r: Self)
        ensures
            r@ == (ArtifactBuilderView { checksums: self@.checksums.push(checksum@), ..self@ }),
    {
        let mut b = self;
        proof {
            lemma_views_push(b.checksums@, checksum);
        }
        b.checksums.push(checksum);
        b
    }

    /// Sets the targeted platform of the artifact.
    #[must_use]
    pub fn platform(self, platform: &str) -> (r: Self)
        ensures
            r@ == (ArtifactBuilderView { platform: Some(platform@), ..self@ }),
    {
        let mut b = self;
        b.platform = Some(platform.to_owned());
        b
    }

    /// Construct an `Artifact`. The address and the kind are required: where
    /// one is missing, the result is the error that names it.
    pub fn build(self) -> (r: Result<Artifact, MissingField>)
        ensures
            result_view(r) == self@.build(),
    {
        let url = match self.url {
            Some(u) => u,
            None => { return Err(MissingField("url".to_owned())); },
        };
        let kind = match self.kind {
            Some(k) => k,
            None => { return Err(MissingField("kind".to_owned())); },
        };
        Ok(
            Artifact {
                url,
                kind,
                sizes: self.sizes,
                checksums: self.checksums,
                platform: self.platform,
                bundles: self.bundles,
            },
        )
    }
}

/// A helper to build a `Component`.
#[derive(Debug)]
pub struct ComponentBuilder {
    /// The component type.
    pub kind: ComponentKind,
    /// Unique identifier for this component.
    pub id: Option<AppId>,
    /// A human-readable name.
    pub name: Option<TranslatableString>,
    /// Absolute requirements of the component.
    pub requires: Vec<Requirement>,
    /// Recommended requirements of the component.
    pub recommends: Vec<Requirement>,
    /// Supported features of the component.
    pub supports: Vec<Requirement>,
    /// A short summary of the component.
    pub summary: Option<TranslatableString>,
    /// A long description of this component.
    pub description: Option<MarkupTranslatableString>,
    /// The license of the component.
    pub project_license: Option<License>,
    /// The license the metainfo XML file is released under.
    pub metadata_license: Option<License>,
    /// Identify the project with a specific upstream umbrella.
    pub project_group: Option<String>,
    /// Indicate for which desktop environment the component is essential for
    /// its functionality.
    pub compulsory_for_desktop: Option<String>,
    /// The various AppId that the current component extends.
    pub extends: Vec<AppId>,
    /// The icons of the component.
    pub icons: Vec<Icon>,
    /// The component screenshots, composed of either images, videos or both.
    pub screenshots: Vec<Screenshot>,
    /// Web URLs.
    pub urls: Vec<ProjectUrl>,
    /// The developers or the projects responsible for the development of the
    /// project.
    pub developer_name: Option<TranslatableString>,
    /// Used by distributors to contact the project.
    pub update_contact: Option<String>,
    /// The categories this component is associated with.
    pub categories: Vec<Category>,
    /// Possible methods to launch the software.
    pub launchables: Vec<Launchable>,
    /// The pkgname, a distributor thing.
    pub pkgname: Option<String>,
    /// The source pkgname, a distributor thing.
    pub source_pkgname: Option<String>,
    /// 3rd-party sources to grab the component from.
    pub bundles: Vec<Bundle>,
    /// Metainformation that describes the various releases.
    pub releases: Vec<Release>,
    /// The languages supported by the component.
    pub languages: Vec<Language>,
    /// The MIME types the component supports.
    pub mimetypes: Vec<String>,
    /// Defines the "awesomeness" of a component.
    pub kudos: Vec<Kudo>,
    /// A list of keywords, to help the user find the component easily.
    pub keywords: Option<TranslatableList>,
    /// Specifies the age rating of the component.
    pub content_rating: Option<ContentRating>,
    /// Public interfaces the component provides.
    pub provides: Vec<Provide>,
    /// Specifies the translation domains.
    pub translations: Vec<Translation>,
    /// Suggested components to install.
    pub suggestions: Vec<AppId>,
    /// Custom metadata.
    pub metadata: StringMap<Option<String>>,
}

/// A [`ComponentBuilder`] with its parts as views.
pub struct ComponentBuilderView {
    pub kind: ComponentKind,
    pub id: Option<Seq<char>>,
    pub name: Option<Map<Seq<char>, Seq<char>>>,
    pub requires: Seq<RequirementView>,
    pub recommends: Seq<RequirementView>,
    pub supports: Seq<RequirementView>,
    pub summary: Option<Map<Seq<char>, Seq<char>>>,
    pub description: Option<Map<Seq<char>, Seq<char>>>,
    pub project_license: Option<Seq<char>>,
    pub metadata_license: Option<Seq<char>>,
    pub project_group: Option<Seq<char>>,
    pub compulsory_for_desktop: Option<Seq<char>>,
    pub extends: Seq<Seq<char>>,
    pub icons: Seq<IconView>,
    pub screenshots: Seq<ScreenshotView>,
    pub urls: Seq<ProjectUrl>,
    pub developer_name: Option<Map<Seq<char>, Seq<char>>>,
    pub update_contact: Option<Seq<char>>,
    pub categories: Seq<CategoryView>,
    pub launchables: Seq<LaunchableView>,
    pub pkgname: Option<Seq<char>>,
    pub source_pkgname: Option<Seq<char>>,
    pub bundles: Seq<BundleView>,
    pub releases: Seq<ReleaseView>,
    pub languages: Seq<LanguageView>,
    pub mimetypes: Seq<Seq<char>>,
    pub kudos: Seq<KudoView>,
    pub keywords: Option<Map<Seq<char>, Seq<Seq<char>>>>,
    pub content_rating: Option<ContentRatingView>,
    pub provides: Seq<ProvideView>,
    pub translations: Seq<TranslationView>,
    pub suggestions: Seq<Seq<char>>,
    pub metadata: Map<Seq<char>, Option<Seq<char>>>,
}

impl View for ComponentBuilder {
    type V = ComponentBuilderView;

    open spec fn view(&self) -> ComponentBuilderView {
        ComponentBuilderView {
            kind: self.kind,
            id: option_view(self.id),
            name: option_view(self.name),
            requires: views(self.requires@),
            recommends: views(self.recommends@),
            supports: views(self.supports@),
            summary: option_view(self.summary),
            description: option_view(self.description),
            project_license: option_view(self.project_license),
            metadata_license: option_view(self.metadata_license),
            project_group: option_view(self.project_group),
            compulsory_for_desktop: option_view(self.compulsory_for_desktop),
            extends: views(self.extends@),
            icons: views(self.icons@),
            screenshots: views(self.screenshots@),
            urls: self.urls@,
            developer_name: option_view(self.developer_name),
            update_contact: option_view(self.update_contact),
            categories: views(self.categories@),
            launchables: views(self.launchables@),
            pkgname: option_view(self.pkgname),
            source_pkgname: option_view(self.source_pkgname),
            bundles: views(self.bundles@),
            releases: views(self.releases@),
            languages: views(self.languages@),
            mimetypes: views(self.mimetypes@),
            kudos: views(self.kudos@),
            keywords: option_view(self.keywords),
            content_rating: option_view(self.content_rating),
            provides: views(self.provides@),
            translations: views(self.translations@),
            suggestions: views(self.suggestions@),
            metadata: metadata_view(self.metadata@),
        }
    }
}

impl ComponentBuilderView {
    /// The builder in which nothing is set: the kind is the generic one.
    pub open spec fn empty() -> ComponentBuilderView {
        ComponentBuilderView {
            kind: ComponentKind::Generic,
            id: None,
            name: None,
            requires: Seq::empty(),
            recommends: Seq::empty(),
            supports: Seq::empty(),
            summary: None,
            description: None,
            project_license: None,
            metadata_license: None,
            project_group: None,
            compulsory_for_desktop: None,
            extends: Seq::empty(),
            icons: Seq::empty(),
            screenshots: Seq::empty(),
            urls: Seq::empty(),
            developer_name: None,
            update_contact: None,
            categories: Seq::empty(),
            launchables: Seq::empty(),
            pkgname: None,
            source_pkgname: None,
            bundles: Seq::empty(),
            releases: Seq::empty(),
            languages: Seq::empty(),
            mimetypes: Seq::empty(),
            kudos: Seq::empty(),
            keywords: None,
            content_rating: None,
            provides: Seq::empty(),
            translations: Seq::empty(),
            suggestions: Seq::empty(),
            metadata: Map::empty(),
        }
    }

    /// The component that the builder gives, or the name of the first
    /// required field that it lacks: the identifier, then the name.
    pub open spec fn build(self) -> Result<ComponentView, Seq<char>> {
        match self.id {
            None => Err("id"@),
            Some(id) => match self.name {
                None => Err("name"@),
                Some(name) => Ok(
                    ComponentView {
                        kind: self.kind,
                        id,
                        name,
                        requires: self.requires,
                        recommends: self.recommends,
                        supports: self.supports,
                        summary: self.summary,
                        description: self.description,
                        project_license: self.project_license,
                        metadata_license: self.metadata_license,
                        project_group: self.project_group,
                        compulsory_for_desktop: self.compulsory_for_desktop,
                        extends: self.extends,
                        icons: self.icons,
                        screenshots: self.screenshots,
                        urls: self.urls,
                        developer_name: self.developer_name,
                        update_contact: self.update_contact,
                        categories: self.categories,
                        launchables: self.launchables,
                        pkgname: self.pkgname,
                        source_pkgname: self.source_pkgname,
                        bundles: self.bundles,
                        releases: self.releases,
                        languages: self.languages,
                        mimetypes: self.mimetypes,
                        kudos: self.kudos,
                        keywords: self.keywords,
                        content_rating: self.content_rating,
                        provides: self.provides,
                        translations: self.translations,
                        suggestions: self.suggestions,
                        metadata: self.metadata,
                    },
                ),
            },
        }
    }
}

impl Default for ComponentBuilder {
    fn default() -> (r: Self)
        ensures
            r@ == ComponentBuilderView::empty(),
    {
        let r = ComponentBuilder {
            kind: ComponentKind::Generic,
            id: None,
            name: None,
            requires: Vec::new(),
            recommends: Vec::new(),
            supports: Vec::new(),
            summary: None,
            description: None,
            project_license: None,
            metadata_license: None,
            project_group: None,
            compulsory_for_desktop: None,
            extends: Vec::new(),
            icons: Vec::new(),
            screenshots: Vec::new(),
            urls: Vec::new(),
            developer_name: None,
            update_contact: None,
            categories: Vec::new(),
            launchables: Vec::new(),
            pkgname: None,
            source_pkgname: None,
            bundles: Vec::new(),
            releases: Vec::new(),
            languages: Vec::new(),
            mimetypes: Vec::new(),
            kudos: Vec::new(),
            keywords: None,
            content_rating: None,
            provides: Vec::new(),
            translations: Vec::new(),
            suggestions: Vec::new(),
            metadata: StringMap::new(),
        };
        proof {
            assert(views(r.requires@) =~= Seq::<RequirementView>::empty());
            assert(views(r.recommends@) =~= Seq::<RequirementView>::empty());
            assert(views(r.supports@) =~= Seq::<RequirementView>::empty());
            assert(views(r.extends@) =~= Seq::<Seq<char>>::empty());
            assert(views(r.icons@) =~= Seq::<IconView>::empty());
            assert(views(r.screenshots@) =~= Seq::<ScreenshotView>::empty());
            assert(views(r.categories@) =~= Seq::<CategoryView>::empty());
            assert(views(r.launchables@) =~= Seq::<LaunchableView>::empty());
            assert(views(r.bundles@) =~= Seq::<BundleView>::empty());
            assert(views(r.releases@) =~= Seq::<ReleaseView>::empty());
            assert(views(r.languages@) =~= Seq::<LanguageView>::empty());
            assert(views(r.mimetypes@) =~= Seq::<Seq<char>>::empty());
            assert(views(r.kudos@) =~= Seq::<KudoView>::empty());
            assert(views(r.provides@) =~= Seq::<ProvideView>::empty());
            assert(views(r.translations@) =~= Seq::<TranslationView>::empty());
            assert(views(r.suggestions@) =~= Seq::<Seq<char>>::empty());
            assert(metadata_view(r.metadata@) =~= Map::<Seq<char>, Option<Seq<char>>>::empty());
        }
        r
    }
}

impl ComponentBuilder {
    /// Sets the component's unique identifier.
    #[must_use]
    pub fn id(self, id: AppId) -> (r: Self)
        ensures
            r@ == (ComponentBuilderView { id: Some(id@), ..self@ }),
    {
        let mut b = self;
        b.id = Some(id);
        b
    }

    /// Sets the component name.
    #[must_use]
    pub fn name(self, name: TranslatableString) -> (r: Self)
        ensures
            r@ == (ComponentBuilderView { name: Some(name@), ..self@ }),
    {
        let mut b = self;
        b.name = Some(name);
        b
    }

    /// Specifies the age rating of component.
    #[must_use]
    pub fn content_rating(self, content_rating: ContentRating) -> (r: Self)
        ensures
            r@ == (ComponentBuilderView { content_rating: Some(content_rating@), ..self@ }),
    {
        let mut b = self;
        b.content_rating = Some(content_rating);
        b
    }

    /// Sets the component type.
    #[must_use]
    pub fn kind(self, kind: ComponentKind) -> (r: Self)
        ensures
            r@ == (ComponentBuilderView { kind: kind, ..self@ }),
    {
        let mut b = self;
        b.kind = kind;
        b
    }

    /// Sets the developer name, unless it is empty.
    #[must_use]
    pub fn developer_name(self, developer_name: TranslatableString) -> (r: Self)
        ensures
            r@ == if developer_name@ == Map::<Seq<char>, Seq<char>>::empty() {
                self@
            } else {
                ComponentBuilderView { developer_name: Some(developer_name@), ..self@ }
            },
    {
        let mut b = self;
        if !developer_name.is_empty() {
            b.developer_name = Some(developer_name);
        }
        b
    }

    /// Sets the component summary, unless it is empty.
    #[must_use]
    pub fn summary(self, summary: TranslatableString) -> (r: Self)
        ensures
            r@ == if summary@ == Map::<Seq<char>, Seq<char>>::empty() {
                self@
            } else {
                ComponentBuilderView { summary: Some(summary@), ..self@ }
            },
    {
        let mut b = self;
        if !summary.is_empty() {
            b.summary = Some(summary);
        }
        b
    }

    /// Sets the component description, unless it is empty.
    #[must_use]
    pub fn description(self, description: MarkupTranslatableString) -> (r: Self)
        ensures
            r@ == if description@ == Map::<Seq<char>, Seq<char>>::empty() {
                self@
            } else {
                ComponentBuilderView { description: Some(description@), ..self@ }
            },
    {
        let mut b = self;
        if !description.is_empty() {
            b.description = Some(description);
        }
        b
    }

    /// Sets the metainfo license.
    #[must_use]
    pub fn metadata_license(self, license: License) -> (r: Self)
        ensures
            r@ == (ComponentBuilderView { metadata_license: Some(license@), ..self@ }),
    {
        let mut b = self;
        b.metadata_license = Some(license);
        b
    }

    /// Sets the project license.
    #[must_use]
    pub fn project_license(self, license: License) -> (r: Self)
        ensures
            r@ == (ComponentBuilderView { project_license: Some(license@), ..self@ }),
    {
        let mut b = self;
        b.project_license = Some(license);
        b
    }

    /// Sets the keywords, unless they are empty.
    #[must_use]
    pub fn keywords(self, keywords: TranslatableList) -> (r: Self)
        ensures
            r@ == if keywords@ == Map::<Seq<char>, Seq<Seq<char>>>::empty() {
                self@
            } else {
                ComponentBuilderView { keywords: Some(keywords@), ..self@ }
            },
    {
        let mut b = self;
        if !keywords.is_empty() {
            b.keywords = Some(keywords);
        }
        b
    }

    /// Sets which desktop environment the component is essential for its
    /// functionality.
    #[must_use]
    pub fn compulsory_for_desktop(self, compulsory_for_desktop: &str) -> (r: Self)
        ensures
            r@ == (ComponentBuilderView {
                compulsory_for_desktop: Some(compulsory_for_desktop@),
                ..self@
            }),
    {
        let mut b = self;
        b.compulsory_for_desktop = Some(compulsory_for_desktop.to_owned());
        b
    }

    /// Sets the upstream umbrella.
    /// Known values includes: GNOME, KDE, XFCE, MATE, LXDE.
    #[must_use]
    pub fn project_group(self, group: &str) -> (r: Self)
        ensures
            r@ == (ComponentBuilderView { project_group: Some(group@), ..self@ }),
    {
        let mut b = self;
        b.project_group = Some(group.to_owned());
        b
    }

    /// Suggest a component to be installed.
    #[must_use]
    pub fn suggest(self, id: AppId) -> (r: Self)
        ensures
            r@ == (ComponentBuilderView { suggestions: self@.suggestions.push(id@), ..self@ }),
    {
        let mut b = self;
        proof {
            lemma_views_push(b.suggestions@, id);
        }
        b.suggestions.push(id);
        b
    }

    /// Adds a Web URL to the component.
    #[must_use]
    pub fn url(self, url: ProjectUrl) -> (r: Self)
        ensures
            r@ == (ComponentBuilderView { urls: self@.urls.push(url), ..self@ }),
    {
        let mut b = self;
        b.urls.push(url);
        b
    }

    /// Adds a screenshot to the component.
    #[must_use]
    pub fn screenshot(self, screenshot: Screenshot) -> (r: Self)
        ensures
            r@ == (ComponentBuilderView {
                screenshots: self@.screenshots.push(screenshot@),
                ..self@
            }),
    {
        let mut b = self;
        proof {
            lemma_views_push(b.screenshots@, screenshot);
        }
        b.screenshots.push(screenshot);
        b
    }

    /// Adds an icon to the component.
    #[must_use]
    pub fn icon(self, icon: Icon) -> (r: Self)
        ensures
            r@ == (ComponentBuilderView { icons: self@.icons.push(icon@), ..self@ }),
    {
        let mut b = self;
        proof {
            lemma_views_push(b.icons@, icon);
        }
        b.icons.push(icon);
        b
    }

    /// Adds a kudo to the component.
    #[must_use]
    pub fn kudo(self, kudo: Kudo) -> (r: Self)
        ensures
            r@ == (ComponentBuilderView { kudos: self@.kudos.push(kudo@), ..self@ }),
    {
        let mut b = self;
        proof {
            lemma_views_push(b.kudos@, kudo);
        }
        b.kudos.push(kudo);
        b
    }

    /// Adds a translation context to the component.
    #[must_use]
    pub fn translation(self, translation: Translation) -> (r: Self)
        ensures
            r@ == (ComponentBuilderView {
                translations: self@.translations.push(translation@),
                ..self@
            }),
    {
        let mut b = self;
        proof {
            lemma_views_push(b.translations@, translation);
        }
        b.translations.push(translation);
        b
    }

    /// Adds a bundle to the component.
    #[must_use]
    pub fn bundle(self, bundle: Bundle) -> (r: Self)
        ensures
            r@ == (ComponentBuilderView { bundles: self@.bundles.push(bundle@), ..self@ }),
    {
        let mut b = self;
        proof {
            lemma_views_push(b.bundles@, bundle);
        }
        b.bundles.push(bundle);
        b
    }

    /// Adds a language to the component.
    #[must_use]
    pub fn language(self, language: Language) -> (r: Self)
        ensures
            r@ == (ComponentBuilderView { languages: self@.languages.push(language@), ..self@ }),
    {
        let mut b = self;
        proof {
            lemma_views_push(b.languages@, language);
        }
        b.languages.push(language);
        b
    }

    /// Adds a category to the component.
    #[must_use]
    pub fn category(self, category: Category) -> (r: Self)
        ensures
            r@ == (ComponentBuilderView { categories: self@.categories.push(category@), ..self@ }),
    {
        let mut b = self;
        proof {
            lemma_views_push(b.categories@, category);
        }
        b.categories.push(category);
        b
    }

    /// Adds a mimetype to the component.
    #[must_use]
    pub fn mimetype(self, mimetype: &str) -> (r: Self)
        ensures
            r@ == (ComponentBuilderView { mimetypes: self@.mimetypes.push(mimetype@), ..self@ }),
    {
        let mut b = self;
        let owned = mimetype.to_owned();
        proof {
            lemma_views_push(b.mimetypes@, owned);
        }
        b.mimetypes.push(owned);
        b
    }

    /// Adds a component that the current one extends.
    #[must_use]
    pub fn extend(self, extend: AppId) -> (r: Self)
        ensures
            r@ == (ComponentBuilderView { extends: self@.extends.push(extend@), ..self@ }),
    {
        let mut b = self;
        proof {
            lemma_views_push(b.extends@, extend);
        }
        b.extends.push(extend);
        b
    }

    /// Adds a release to the component.
    #[must_use]
    pub fn release(self, release: Release) -> (r: Self)
        ensures
            r@ == (ComponentBuilderView { releases: self@.releases.push(release@), ..self@ }),
    {
        let mut b = self;
        proof {
            lemma_views_push(b.releases@, release);
        }
        b.releases.push(release);
        b
    }

    /// Adds a launchable to the component.
    #[must_use]
    pub fn launchable(self, launchable: Launchable) -> (r: Self)
        ensures
            r@ == (ComponentBuilderView {
                launchables: self@.launchables.push(launchable@),
                ..self@
            }),
    {
        let mut b = self;
        proof {
            lemma_views_push(b.launchables@, launchable);
        }
        b.launchables.push(launchable);
        b
    }

    /// Adds a provided interface to the component.
    #[must_use]
    pub fn provide(self, provide: Provide) -> (r: Self)
        ensures
            r@ == (ComponentBuilderView { provides: self@.provides.push(provide@), ..self@ }),
    {
        let mut b = self;
        proof {
            lemma_views_push(b.provides@, provide);
        }
        b.provides.push(provide);
        b
    }

    /// Sets the pkgname, a distributor thing.
    #[must_use]
    pub fn pkgname(self, pkgname: &str) -> (r: Self)
        ensures
            r@ == (ComponentBuilderView { pkgname: Some(pkgname@), ..self@ }),
    {
        let mut b = self;
        b.pkgname = Some(pkgname.to_owned());
        b
    }

    /// Sets the source pkgname, a distributor thing.
    #[must_use]
    pub fn source_pkgname(self, source_pkgname: &str) -> (r: Self)
        ensures
            r@ == (ComponentBuilderView { source_pkgname: Some(source_pkgname@), ..self@ }),
    {
        let mut b = self;
        b.source_pkgname = Some(source_pkgname.to_owned());
        b
    }

    /// Sets a way to contact the developer of the project.
    #[must_use]
    pub fn update_contact(self, update_contact: &str) -> (r: Self)
        ensures
            r@ == (ComponentBuilderView { update_contact: Some(update_contact@), ..self@ }),
    {
        let mut b = self;
        b.update_contact = Some(update_contact.to_owned());
        b
    }

    /// Adds a new metadata (key, value) to the component, in place of what
    /// was under the key.
    #[must_use]
    pub fn metadata(self, key: String, val: Option<String>) -> (r: Self)
        ensures
            r@ == (ComponentBuilderView {
                metadata: self@.metadata.insert(key@, option_view(val)),
                ..self@
            }),
    {
        let mut b = self;
        let ghost before = b.metadata@;
        b.metadata.insert(key, val);
        proof {
            lemma_same_map(
                metadata_view(b.metadata@),
                metadata_view(before).insert(key@, option_view(val)),
            );
        }
        b
    }

    /// Adds a supported requirement to the component.
    #[must_use]
    pub fn supports(self, requirement: Requirement) -> (r: Self)
        ensures
            r@ == (ComponentBuilderView { supports: self@.supports.push(requirement@), ..self@ }),
    {
        let mut b = self;
        proof {
            lemma_views_push(b.supports@, requirement);
        }
        b.supports.push(requirement);
        b
    }

    /// Adds a recommended requirement to the component.
    #[must_use]
    pub fn recommend(self, requirement: Requirement) -> (r: Self)
        ensures
            r@ == (ComponentBuilderView {
                recommends: self@.recommends.push(requirement@),
                ..self@
            }),
    {
        let mut b = self;
        proof {
            lemma_views_push(b.recommends@, requirement);
        }
        b.recommends.push(requirement);
        b
    }

    /// Adds an absolute requirement to the component.
    #[must_use]
    pub fn require(self, requirement: Requirement) -> (r: Self)
        ensures
            r@ == (ComponentBuilderView { requires: self@.requires.push(requirement@), ..self@ }),
    {
        let mut b = self;
        proof {
            lemma_views_push(b.requires@, requirement);
        }
        b.requires.push(requirement);
        b
    }

    /// Constructs a `Component`. The identifier and the name are required:
    /// where one is missing, the result is the error that names it.
    pub fn build(self) -> (r: Result<Component, MissingField>)
        ensures
            result_view(r) == self@.build(),
    {
        let id = match self.id {
            Some(id) => id,
            None => { return Err(MissingField("id".to_owned())); },
        };
        let name = match self.name {
            Some(name) => name,
            None => { return Err(MissingField("name".to_owned())); },
        };
        Ok(
            Component {
                kind: self.kind,
                id,
                name,
                requires: self.requires,
                recommends: self.recommends,
                supports: self.supports,
                summary: self.summary,
                description: self.description,
                project_license: self.project_license,
                metadata_license: self.metadata_license,
                project_group: self.project_group,
                compulsory_for_desktop: self.compulsory_for_desktop,
                extends: self.extends,
                icons: self.icons,
                screenshots: self.screenshots,
                urls: self.urls,
                developer_name: self.developer_name,
                update_contact: self.update_contact,
                categories: self.categories,
                launchables: self.launchables,
                pkgname: self.pkgname,
                source_pkgname: self.source_pkgname,
                bundles: self.bundles,
                releases: self.releases,
                languages: self.languages,
                mimetypes: self.mimetypes,
                kudos: self.kudos,
                keywords: self.keywords,
                content_rating: self.content_rating,
                provides: self.provides,
                translations: self.translations,
                suggestions: self.suggestions,
                metadata: self.metadata,
            },
        )
    }
}

/// A helper to build an `Issue`.
#[derive(Debug)]
pub struct IssueBuilder {
    /// The issue kind; an issue without one is a generic issue.
    pub kind: Option<IssueKind>,
    /// The issue url.
    pub url: Option<Url>,
    /// The issue identifier.
    pub identifier: Option<String>,
}

/// An [`IssueBuilder`] with its identifier as a character sequence.
pub struct IssueBuilderView {
    pub kind: Option<IssueKind>,
    pub url: Option<Url>,
    pub identifier: Option<Seq<char>>,
}

impl View for IssueBuilder {
    type V = IssueBuilderView;

    open spec fn view(&self) -> IssueBuilderView {
        IssueBuilderView {
            kind: self.kind,
            url: self.url,
            identifier: option_view(self.identifier),
        }
    }
}

impl IssueBuilderView {
    /// The issue that the builder gives, or the name of the required field
    /// that it lacks: the identifier. An issue without a kind is a generic
    /// issue.
    pub open spec fn build(self) -> Result<IssueView, Seq<char>> {
        match self.identifier {
            None => Err("identifier"@),
            Some(identifier) => Ok(
                IssueView {
                    kind: match self.kind {
                        Some(k) => k,
                        None => IssueKind::Generic,
                    },
                    url: self.url,
                    identifier,
                },
            ),
        }
    }
}

impl Default for IssueBuilder {
    fn default() -> (r: Self)
        ensures
            r@ == (IssueBuilderView { kind: None, url: None, identifier: None }),
    {
        IssueBuilder { kind: None, url: None, identifier: None }
    }
}

impl IssueBuilder {
    /// Sets the issue kind.
    #[must_use]
    pub fn kind(self, kind: IssueKind) -> (r: Self)
        ensures
            r@ == (IssueBuilderView { kind: Some(kind), ..self@ }),
    {
        let mut b = self;
        b.kind = Some(kind);
        b
    }

    /// Sets the issue information url.
    #[must_use]
    pub fn url(self, url: Url) -> (r: Self)
        ensures
            r@ == (IssueBuilderView { url: Some(url), ..self@ }),
    {
        let mut b = self;
        b.url = Some(url);
        b
    }

    /// Sets the issue identifier.
    #[must_use]
    pub fn identifier(self, identifier: String) -> (r: Self)
        ensures
            r@ == (IssueBuilderView { identifier: Some(identifier@), ..self@ }),
    {
        let mut b = self;
        b.identifier = Some(identifier);
        b
    }

    /// Construct an `Issue`. The identifier is required: where it is missing,
    /// the result is the error that names it.
    pub fn build(self) -> (r: Result<Issue, MissingField>)
        ensures
            result_view(r) == self@.build(),
    {
        let identifier = match self.identifier {
            Some(i) => i,
            None => { return Err(MissingField("identifier".to_owned())); },
        };
        Ok(
            Issue {
                url: self.url,
                kind: match self.kind {
                    Some(k) => k,
                    None => IssueKind::Generic,
                },
                identifier,
            },
        )
    }
}

/// A helper to build a `Collection`.
#[derive(Debug)]
pub struct CollectionBuilder {
    /// The specification version used on this collection of components.
    pub version: String,
    /// The origin of the collection. Could be something like `flathub`.
    pub origin: Option<String>,
    /// The list of components on that collection.
    pub components: Vec<Component>,
    /// The targeted CPU architecture of the collection.
    pub architecture: Option<String>,
}

impl View for CollectionBuilder {
    type V = CollectionView;

    open spec fn view(&self) -> CollectionView {
        CollectionView {
            version: self.version@,
            origin: option_view(self.origin),
            components: views(self.components@),
            architecture: option_view(self.architecture),
        }
    }
}

impl CollectionBuilder {
    /// Create a new `CollectionBuilder` for the given version of the
    /// specification.
    pub fn new(version: &str) -> (r: Self)
        ensures
            r@ == (CollectionView {
                version: version@,
                origin: None,
                components: Seq::empty(),
                architecture: None,
            }),
    {
        let r = CollectionBuilder {
            version: version.to_owned(),
            origin: None,
            components: Vec::new(),
            architecture: None,
        };
        assert(views(r.components@) =~= Seq::<ComponentView>::empty());
        r
    }

    /// Specifies the targeted architecture.
    #[must_use]
    pub fn architecture(self, architecture: &str) -> (r: Self)
        ensures
            r@ == (CollectionView { architecture: Some(architecture@), ..self@ }),
    {
        let mut b = self;
        b.architecture = Some(architecture.to_owned());
        b
    }

    /// Sets the origin of the collection.
    #[must_use]
    pub fn origin(self, origin: &str) -> (r: Self)
        ensures
            r@ == (CollectionView { origin: Some(origin@), ..self@ }),
    {
        let mut b = self;
        b.origin = Some(origin.to_owned());
        b
    }

    /// Adds a new component to the collection.
    #[must_use]
    pub fn component(self, component: Component) -> (r: Self)
        ensures
            r@ == (CollectionView { components: self@.components.push(component@), ..self@ }),
    {
        let mut b = self;
        proof {
            lemma_views_push(b.components@, component);
        }
        b.components.push(component);
        b
    }

    /// Construct a `Collection`.
    #[must_use]
    pub fn build(self) -> (r: Collection)
        ensures
            r@ == self@,
    {
        Collection {
            version: self.version,
            origin: self.origin,
            components: self.components,
            architecture: self.architecture,
        }
    }
}

/// A helper to build an `Image`.
#[derive(Debug)]
pub struct ImageBuilder {
    /// The image width.
    pub width: Option<u32>,
    /// The image height.
    pub height: Option<u32>,
    /// The URL of the image.
    pub url: Url,
    /// The type of the image.
    pub kind: ImageKind,
}

impl View for ImageBuilder {
    type V = Image;

    open spec fn view(&self) -> Image {
        Image { kind: self.kind, width: self.width, height: self.height, url: self.url }
    }
}

impl ImageBuilder {
    /// Creates a new `ImageBuilder` for the image at `url`: a source image
    /// without dimensions.
    pub fn new(url: Url) -> (r: Self)
        ensures
            r@ == (Image { kind: ImageKind::Source, width: None, height: None, url }),
    {
        ImageBuilder { width: None, height: None, url, kind: ImageKind::Source }
    }

    /// Sets the image type, either source or thumbnail.
    #[must_use]
    pub fn kind(self, kind: ImageKind) -> (r: Self)
        ensures
            r@ == (Image { kind: kind, ..self@ }),
    {
        let mut b = self;
        b.kind = kind;
        b
    }

    /// Sets the image width.
    #[must_use]
    pub fn width(self, width: u32) -> (r: Self)
        ensures
            r@ == (Image { width: Some(width), ..self@ }),
    {
        let mut b = self;
        b.width = Some(width);
        b
    }

    /// Sets the image height.
    #[must_use]
    pub fn height(self, height: u32) -> (r: Self)
        ensures
            r@ == (Image { height: Some(height), ..self@ }),
    {
        let mut b = self;
        b.height = Some(height);
        b
    }

    /// Constructs an `Image`.
    #[must_use]
    pub fn build(self) -> (r: Image)
        ensures
            r == self@,
    {
        Image { width: self.width, height: self.height, url: self.url, kind: self.kind }
    }
}

/// A helper to build a `Language`.
#[derive(Debug)]
pub struct LanguageBuilder {
    /// A percentage representing how complete the language support is.
    pub percentage: Option<u32>,
    /// The locale identifier, e.g fr_BE.
    pub locale: String,
}

impl View for LanguageBuilder {
    type V = LanguageView;

    open spec fn view(&self) -> LanguageView {
        LanguageView { percentage: self.percentage, locale: self.locale@ }
    }
}

impl LanguageBuilder {
    /// Creates a new `LanguageBuilder` for the given locale, without a
    /// percentage.
    pub fn new(locale: &str) -> (r: Self)
        ensures
            r@ == (LanguageView { percentage: None, locale: locale@ }),
    {
        LanguageBuilder { percentage: None, locale: locale.to_owned() }
    }

    /// Sets how complete the translation is in percentage.
    #[must_use]
    pub fn percentage(self, percentage: u32) -> (r: Self)
        ensures
            r@ == (LanguageView { percentage: Some(percentage), ..self@ }),
    {
        let mut b = self;
        b.percentage = Some(percentage);
        b
    }

    /// Constructs a `Language`.
    #[must_use]
    pub fn build(self) -> (r: Language)
        ensures
            r@ == self@,
    {
        Language { locale: self.locale, percentage: self.percentage }
    }
}

/// A helper to build a `Release`.
#[derive(Debug)]
pub struct ReleaseBuilder {
    /// The release date.
    pub date: Option<DateTime>,
    /// The end-of-life date of the release.
    pub date_eol: Option<DateTime>,
    /// The release description.
    pub description: Option<MarkupTranslatableString>,
    /// The version of the release.
    pub version: String,
    /// The release type; a release without one is a stable release.
    pub kind: Option<ReleaseKind>,
    /// The download/installed sizes of the release.
    pub sizes: Vec<Size>,
    /// The urgency to install the release.
    pub urgency: ReleaseUrgency,
    /// The release artifacts.
    pub artifacts: Vec<Artifact>,
    /// A web page containing the release changelog.
    pub url: Option<Url>,
    /// A list of issues resolved by this release.
    pub issues: Vec<Issue>,
}

impl View for ReleaseBuilder {
    type V = ReleaseView;

    open spec fn view(&self) -> ReleaseView {
        ReleaseView {
            date: self.date,
            date_eol: self.date_eol,
            version: self.version@,
            description: option_view(self.description),
            kind: match self.kind {
                Some(k) => k,
                None => ReleaseKind::Stable,
            },
            sizes: self.sizes@,
            urgency: self.urgency,
            artifacts: views(self.artifacts@),
            url: self.url,
            issues: views(self.issues@),
        }
    }
}

impl ReleaseBuilder {
    /// Create a new `ReleaseBuilder` for the given version: a stable release
    /// of medium urgency.
    pub fn new(version: &str) -> (r: Self)
        ensures
            r@ == ReleaseView::new(version@),
    {
        let r = ReleaseBuilder {
            date: None,
            date_eol: None,
            description: None,
            kind: Some(ReleaseKind::Stable),
            sizes: Vec::new(),
            version: version.to_owned(),
            urgency: ReleaseUrgency::Medium,
            artifacts: Vec::new(),
            url: None,
            issues: Vec::new(),
        };
        assert(views(r.artifacts@) =~= Seq::<ArtifactView>::empty());
        assert(views(r.issues@) =~= Seq::<IssueView>::empty());
        r
    }

    /// Sets the release description, unless it is empty.
    #[must_use]
    pub fn description(self, description: MarkupTranslatableString) -> (r: Self)
        ensures
            r@ == if description@ == Map::<Seq<char>, Seq<char>>::empty() {
                self@
            } else {
                ReleaseView { description: Some(description@), ..self@ }
            },
    {
        let mut b = self;
        if !description.is_empty() {
            b.description = Some(description);
        }
        b
    }

    /// Sets a web page URL that contains the release changelog.
    #[must_use]
    pub fn url(self, url: Url) -> (r: Self)
        ensures
            r@ == (ReleaseView { url: Some(url), ..self@ }),
    {
        let mut b = self;
        b.url = Some(url);
        b
    }

    /// Sets the urgency to install the release.
    #[must_use]
    pub fn urgency(self, urgency: ReleaseUrgency) -> (r: Self)
        ensures
            r@ == (ReleaseView { urgency: urgency, ..self@ }),
    {
        let mut b = self;
        b.urgency = urgency;
        b
    }

    /// Sets the release date.
    #[must_use]
    pub fn date(self, date: DateTime) -> (r: Self)
        ensures
            r@ == (ReleaseView { date: Some(date), ..self@ }),
    {
        let mut b = self;
        b.date = Some(date);
        b
    }

    /// Sets the End-of-life release date.
    #[must_use]
    pub fn date_eol(self, date_eol: DateTime) -> (r: Self)
        ensures
            r@ == (ReleaseView { date_eol: Some(date_eol), ..self@ }),
    {
        let mut b = self;
        b.date_eol = Some(date_eol);
        b
    }

    /// Sets the release type.
    #[must_use]
    pub fn kind(self, kind: ReleaseKind) -> (r: Self)
        ensures
            r@ == (ReleaseView { kind: kind, ..self@ }),
    {
        let mut b = self;
        b.kind = Some(kind);
        b
    }

    /// Adds either a download or installed size to the release.
    #[must_use]
    pub fn size(self, size: Size) -> (r: Self)
        ensures
            r@ == (ReleaseView { sizes: self@.sizes.push(size), ..self@ }),
    {
        let mut b = self;
        b.sizes.push(size);
        b
    }

    /// Sets the download & installed sizes of the release.
    #[must_use]
    pub fn sizes(self, sizes: Vec<Size>) -> (r: Self)
        ensures
            r@ == (ReleaseView { sizes: sizes@, ..self@ }),
    {
        let mut b = self;
        b.sizes = sizes;
        b
    }

    /// Adds an artifact to the release.
    #[must_use]
    pub fn artifact(self, artifact: Artifact) -> (r: Self)
        ensures
            r@ == (ReleaseView { artifacts: self@.artifacts.push(artifact@), ..self@ }),
    {
        let mut b = self;
        proof {
            lemma_views_push(b.artifacts@, artifact);
        }
        b.artifacts.push(artifact);
        b
    }

    /// Adds an issue to the release.
    #[must_use]
    pub fn issue(self, issue: Issue) -> (r: Self)
        ensures
            r@ == (ReleaseView { issues: self@.issues.push(issue@), ..self@ }),
    {
        let mut b = self;
        proof {
            lemma_views_push(b.issues@, issue);
        }
        b.issues.push(issue);
        b
    }

    /// Constructs a `Release`.
    #[must_use]
    pub fn build(self) -> (r: Release)
        ensures
            r@ == self@,
    {
        let kind = match self.kind {
            Some(k) => k,
            None => ReleaseKind::Stable,
        };
        Release {
            version: self.version,
            date: self.date,
            date_eol: self.date_eol,
            kind,
            description: self.description,
            sizes: self.sizes,
            urgency: self.urgency,
            artifacts: self.artifacts,
            url: self.url,
            issues: self.issues,
        }
    }
}

/// A helper to build a `Screenshot`.
#[derive(Debug)]
pub struct ScreenshotBuilder {
    /// Whether the screenshot is the default one or not; a screenshot for
    /// which this is not set is the default one.
    pub is_default: Option<bool>,
    /// A translatable short description of the screenshot.
    pub caption: Option<TranslatableString>,
    /// The various images on that screenshot.
    pub images: Vec<Image>,
    /// The various videos on that screenshot.
    pub videos: Vec<Video>,
}

impl View for ScreenshotBuilder {
    type V = ScreenshotView;

    open spec fn view(&self) -> ScreenshotView {
        ScreenshotView {
            is_default: match self.is_default {
                Some(d) => d,
                None => true,
            },
            caption: option_view(self.caption),
            images: self.images@,
            videos: views(self.videos@),
        }
    }
}

impl Default for ScreenshotBuilder {
    fn default() -> (r: Self)
        ensures
            r@ == (ScreenshotView {
                is_default: true,
                caption: None,
                images: Seq::empty(),
                videos: Seq::empty(),
            }),
    {
        let r = ScreenshotBuilder {
            is_default: None,
            caption: None,
            images: Vec::new(),
            videos: Vec::new(),
        };
        assert(views(r.videos@) =~= Seq::<VideoView>::empty());
        r
    }
}

impl ScreenshotBuilder {
    /// Sets a short translatable description of the `Screenshot`, unless it is
    /// empty.
    #[must_use]
    pub fn caption(self, caption: TranslatableString) -> (r: Self)
        ensures
            r@ == if caption@ == Map::<Seq<char>, Seq<char>>::empty() {
                self@
            } else {
                ScreenshotView { caption: Some(caption@), ..self@ }
            },
    {
        let mut b = self;
        if !caption.is_empty() {
            b.caption = Some(caption);
        }
        b
    }

    /// Sets whether the current screenshot is the default one.
    #[must_use]
    pub fn set_default(self, is_default: bool) -> (r: Self)
        ensures
            r@ == (ScreenshotView { is_default: is_default, ..self@ }),
    {
        let mut b = self;
        b.is_default = Some(is_default);
        b
    }

    /// Adds a new `Image` to the `Screenshot`.
    #[must_use]
    pub fn image(self, image: Image) -> (r: Self)
        ensures
            r@ == (ScreenshotView { images: self@.images.push(image), ..self@ }),
    {
        let mut b = self;
        b.images.push(image);
        b
    }

    /// Sets the list of images corresponding to the screenshot.
    #[must_use]
    pub fn images(self, images: Vec<Image>) -> (r: Self)
        ensures
            r@ == (ScreenshotView { images: images@, ..self@ }),
    {
        let mut b = self;
        b.images = images;
        b
    }

    /// Adds a new `Video` to the `Screenshot`.
    #[must_use]
    pub fn video(self, video: Video) -> (r: Self)
        ensures
            r@ == (ScreenshotView { videos: self@.videos.push(video@), ..self@ }),
    {
        let mut b = self;
        proof {
            lemma_views_push(b.videos@, video);
        }
        b.videos.push(video);
        b
    }

    /// Sets the list of videos corresponding to the screenshot.
    #[must_use]
    pub fn videos(self, videos: Vec<Video>) -> (r: Self)
        ensures
            r@ == (ScreenshotView { videos: views(videos@), ..self@ }),
    {
        let mut b = self;
        b.videos = videos;
        b
    }

    /// Construct a `Screenshot`.
    #[must_use]
    pub fn build(self) -> (r: Screenshot)
        ensures
            r@ == self@,
    {
        Screenshot {
            caption: self.caption,
            images: self.images,
            videos: self.videos,
            is_default: match self.is_default {
                Some(d) => d,
                None => true,
            },
        }
    }
}

/// A helper to build a `Video`.
#[derive(Debug)]
pub struct VideoBuilder {
    /// The video width.
    pub width: Option<u32>,
    /// The video height.
    pub height: Option<u32>,
    /// The necessary codec to play the video.
    pub codec: Option<String>,
    /// The video container. Possible values are Matroska(.mkv) or WebM.
    pub container: Option<String>,
    /// The video URL.
    pub url: Url,
}

impl View for VideoBuilder {
    type V = VideoView;

    open spec fn view(&self) -> VideoView {
        VideoView {
            width: self.width,
            height: self.height,
            codec: option_view(self.codec),
            container: option_view(self.container),
            url: self.url,
        }
    }
}

impl VideoBuilder {
    /// Creates a new `VideoBuilder` for the video at `url`.
    pub fn new(url: Url) -> (r: Self)
        ensures
            r@ == (VideoView { width: None, height: None, codec: None, container: None, url }),
    {
        VideoBuilder { width: None, height: None, container: None, codec: None, url }
    }

    /// Set the video width.
    #[must_use]
    pub fn width(self, width: u32) -> (r: Self)
        ensures
            r@ == (VideoView { width: Some(width), ..self@ }),
    {
        let mut b = self;
        b.width = Some(width);
        b
    }

    /// Set the video height.
    #[must_use]
    pub fn height(self, height: u32) -> (r: Self)
        ensures
            r@ == (VideoView { height: Some(height), ..self@ }),
    {
        let mut b = self;
        b.height = Some(height);
        b
    }

    /// The video container, either `mkv` or `webm`.
    #[must_use]
    pub fn container(self, container: &str) -> (r: Self)
        ensures
            r@ == (VideoView { container: Some(container@), ..self@ }),
    {
        let mut b = self;
        b.container = Some(container.to_owned());
        b
    }

    /// The video codec, either `vp9` or `av1`.
    #[must_use]
    pub fn codec(self, codec: &str) -> (r: Self)
        ensures
            r@ == (VideoView { codec: Some(codec@), ..self@ }),
    {
        let mut b = self;
        b.codec = Some(codec.to_owned());
        b
    }

    /// Construct a Video.
    #[must_use]
    pub fn build(self) -> (r: Video)
        ensures
            r@ == self@,
    {
        Video {
            width: self.width,
            height: self.height,
            codec: self.codec,
            container: self.container,
            url: self.url,
        }
    }
}

} // verus!
