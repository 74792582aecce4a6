//! Releases and the artifacts that they ship.
use vstd::prelude::*;
use url::Url;
use crate::builders::{ArtifactBuilder, ArtifactBuilderView};
use crate::dates::{date_of, deserialize_date, DateTime};
use crate::element::{markup_in, Element, Node};
use crate::enums::bundle::{Bundle, BundleView};
use crate::enums::checksum::{Checksum, ChecksumView};
use crate::enums::kinds::{ArtifactKind, IssueKind, ReleaseKind, ReleaseUrgency};
use crate::enums::size::Size;
use crate::error::{ParseError, ParseErrorView};
use crate::links::{clone_url, read_url, url_parse};
use crate::text::str_eq;
use crate::translatable_string::{element_locale, MarkupTranslatableString};
use crate::views::{lemma_views_add, option_view, result_view, views};
use crate::walk::{collect, collected, FromElement};
use crate::element::{node_model, nodes_model};
use crate::enums::bundle::lemma_bundle_model_decides;
use crate::enums::checksum::lemma_checksum_model_decides;
use crate::enums::size::lemma_size_model_decides;
use crate::model::{
    lemma_same_attribute, lemma_same_models_split, lemma_same_node_model, lemma_same_text,
};
use crate::translatable_string::lemma_same_locale_and_text;
use crate::walk::lemma_same_collected;

verus! {

/// Defines the release artifacts, whether it's the source-code or the binary
/// distribution.
#[derive(Debug, PartialEq)]
pub struct Artifact {
    /// The targeted platform of the artifact.
    pub platform: Option<String>,
    /// The artifact type.
    pub kind: ArtifactKind,
    /// Downloaded & installed sizes.
    pub sizes: Vec<Size>,
    /// Download link.
    pub url: Url,
    /// At least one checksum of released artifact.
    pub checksums: Vec<Checksum>,
    /// 3rd-party bundles from where you can grab this release.
    pub bundles: Vec<Bundle>,
}

/// An [`Artifact`] with its parts as views.
pub struct ArtifactView {
    pub platform: Option<Seq<char>>,
    pub kind: ArtifactKind,
    pub sizes: Seq<Size>,
    pub url: Url,
    pub checksums: Seq<ChecksumView>,
    pub bundles: Seq<BundleView>,
}

impl View for Artifact {
    type V = ArtifactView;

    open spec fn view(&self) -> ArtifactView {
        ArtifactView {
            platform: option_view(self.platform),
            kind: self.kind,
            sizes: self.sizes@,
            url: self.url,
            checksums: views(self.checksums@),
            bundles: views(self.bundles@),
        }
    }
}

/// An issue that a release resolves.
#[derive(Clone, Debug, PartialEq)]
pub struct Issue {
    /// The issue type.
    pub kind: IssueKind,
    /// A web page with details on the issue.
    pub url: Option<Url>,
    /// The identifier of the issue, such as a bug number.
    pub identifier: String,
}

/// An [`Issue`] with its identifier as a character sequence.
pub struct IssueView {
    pub kind: IssueKind,
    pub url: Option<Url>,
    pub identifier: Seq<char>,
}

impl View for Issue {
    type V = IssueView;

    open spec fn view(&self) -> IssueView {
        IssueView { kind: self.kind, url: self.url, identifier: self.identifier@ }
    }
}

/// Represents the metainformation that defines a Release.
#[derive(Clone, Debug, PartialEq)]
pub struct Release {
    /// The release date.
    pub date: Option<DateTime>,
    /// The end-of-life date of the release.
    pub date_eol: Option<DateTime>,
    /// The release version.
    pub version: String,
    /// A long description of the release.
    pub description: Option<MarkupTranslatableString>,
    /// The release type.
    pub kind: ReleaseKind,
    /// Defines the downloaded & installed sizes of the release.
    pub sizes: Vec<Size>,
    /// The urgency to install this release.
    pub urgency: ReleaseUrgency,
    /// Defines the different artifacts shipped with the release.
    pub artifacts: Vec<Artifact>,
    /// A web page with the release changelog.
    pub url: Option<Url>,
    /// The issues that the release resolves.
    pub issues: Vec<Issue>,
}

/// A [`Release`] with its parts as views.
pub struct ReleaseView {
    pub date: Option<DateTime>,
    pub date_eol: Option<DateTime>,
    pub version: Seq<char>,
    pub description: Option<Map<Seq<char>, Seq<char>>>,
    pub kind: ReleaseKind,
    pub sizes: Seq<Size>,
    pub urgency: ReleaseUrgency,
    pub artifacts: Seq<ArtifactView>,
    pub url: Option<Url>,
    pub issues: Seq<IssueView>,
}

impl View for Release {
    type V = ReleaseView;

    open spec fn view(&self) -> ReleaseView {
        ReleaseView {
            date: self.date,
            date_eol: self.date_eol,
            version: self.version@,
            description: option_view(self.description),
            kind: self.kind,
            sizes: self.sizes@,
            urgency: self.urgency,
            artifacts: views(self.artifacts@),
            url: self.url,
            issues: views(self.issues@),
        }
    }
}

impl ReleaseView {
    /// The release of version `version` in which nothing else is set: it is
    /// stable and of medium urgency.
    pub open spec fn new(version: Seq<char>) -> ReleaseView {
        ReleaseView {
            date: None,
            date_eol: None,
            version,
            description: None,
            kind: ReleaseKind::Stable,
            sizes: Seq::empty(),
            urgency: ReleaseUrgency::Medium,
            artifacts: Seq::empty(),
            url: None,
            issues: Seq::empty(),
        }
    }
}

/// The artifact under construction `a` after child `node` of its element is
/// read: a `location` sets the address, and a `size`, a `checksum` or a
/// `bundle` joins those that are there; every other node is passed over.
pub open spec fn artifact_step(a: ArtifactBuilderView, node: Node) -> Result<
    ArtifactBuilderView,
    ParseErrorView,
> {
    match node {
        Node::Element(c) => if c.name@ == "location"@ {
            match c.spec_text() {
                None => Err(ParseErrorView::MissingValue("location"@)),
                Some(val) => match url_parse(val) {
                    Ok(url) => Ok(ArtifactBuilderView { url: Some(url), ..a }),
                    Err(m) => Err(ParseErrorView::UrlParseError(m)),
                },
            }
        } else if c.name@ == "size"@ {
            match Size::spec_try_from(c) {
                Ok(size) => Ok(ArtifactBuilderView { sizes: a.sizes.push(size), ..a }),
                Err(err) => Err(err),
            }
        } else if c.name@ == "checksum"@ {
            match Checksum::spec_try_from(c) {
                Ok(checksum) => Ok(
                    ArtifactBuilderView { checksums: a.checksums.push(checksum), ..a },
                ),
                Err(err) => Err(err),
            }
        } else if c.name@ == "bundle"@ {
            match Bundle::spec_try_from(c) {
                Ok(bundle) => Ok(ArtifactBuilderView { bundles: a.bundles.push(bundle), ..a }),
                Err(err) => Err(err),
            }
        } else {
            Ok(a)
        },
        _ => Ok(a),
    }
}

/// The artifact under construction `a` after `children` are read in order;
/// the first child that fails decides the error.
pub open spec fn artifact_fold(a: ArtifactBuilderView, children: Seq<Node>) -> Result<
    ArtifactBuilderView,
    ParseErrorView,
>
    decreases children.len(),
{
    if children.len() == 0 {
        Ok(a)
    } else {
        match artifact_fold(a, children.drop_last()) {
            Ok(before) => artifact_step(before, children.last()),
            Err(err) => Err(err),
        }
    }
}

/// Where a prefix of the children fails, all of them fail in the same way.
pub proof fn lemma_artifact_fold_fails(a: ArtifactBuilderView, children: Seq<Node>, k: int)
    requires
        0 <= k <= children.len(),
        artifact_fold(a, children.take(k)) is Err,
    ensures
        artifact_fold(a, children) == artifact_fold(a, children.take(k)),
    decreases children.len() - k,
{
    if k == children.len() {
        assert(children.take(k) =~= children);
    } else {
        assert(children.take(k + 1).drop_last() =~= children.take(k));
        lemma_artifact_fold_fails(a, children, k + 1);
    }
}

impl Artifact {
    /// The artifact that an `artifact` element denotes. Its `type` attribute,
    /// which is required, names the kind; `platform` is taken as it stands.
    /// Its children give the address, which is required, and the sizes,
    /// checksums and bundles.
    pub open spec fn spec_try_from(e: Element) -> Result<ArtifactView, ParseErrorView> {
        match e.spec_attribute("type"@) {
            None => Err(ParseErrorView::MissingAttribute("type"@, "artifact"@)),
            Some(t) => match ArtifactKind::spec_from_str(t) {
                None => Err(ParseErrorView::InvalidValue(t, "type"@, "artifact"@)),
                Some(kind) => {
                    let start = ArtifactBuilderView {
                        kind: Some(kind),
                        platform: e.spec_attribute("platform"@),
                        ..ArtifactBuilderView::empty()
                    };
                    match artifact_fold(start, e.children@) {
                        Err(err) => Err(err),
                        Ok(a) => match a.build() {
                            Ok(artifact) => Ok(artifact),
                            Err(_) => Err(ParseErrorView::MissingTag("location"@)),
                        },
                    }
                },
            },
        }
    }

    /// Reads child `node` of an artifact element into `builder`.
    fn read_child(builder: ArtifactBuilder, node: &Node) -> (r: Result<ArtifactBuilder, ParseError>)
        ensures
            result_view(r) == artifact_step(builder@, *node),
    {
        match node {
            Node::Element(c) => {
                if str_eq(c.name.as_str(), "location") {
                    let val = match c.get_text() {
                        Some(v) => v,
                        None => { return Err(ParseError::missing_value("location")); },
                    };
                    match read_url(val.as_str()) {
                        Ok(url) => Ok(builder.url(url)),
                        Err(err) => Err(err),
                    }
                } else if str_eq(c.name.as_str(), "size") {
                    match Size::try_from(c) {
                        Ok(size) => Ok(builder.size(size)),
                        Err(err) => Err(err),
                    }
                } else if str_eq(c.name.as_str(), "checksum") {
                    match Checksum::try_from(c) {
                        Ok(checksum) => Ok(builder.checksum(checksum)),
                        Err(err) => Err(err),
                    }
                } else if str_eq(c.name.as_str(), "bundle") {
                    match Bundle::try_from(c) {
                        Ok(bundle) => Ok(builder.bundle(bundle)),
                        Err(err) => Err(err),
                    }
                } else {
                    Ok(builder)
                }
            },
            _ => Ok(builder),
        }
    }
}

impl Artifact {
    /// Reads the artifact that `e` denotes: see [`Artifact::spec_try_from`].
    pub fn try_from(e: &Element) -> (r: Result<Self, ParseError>)
        ensures
            result_view(r) == Artifact::spec_try_from(*e),
    {
        let kind = match e.attribute("type") {
            None => { return Err(ParseError::missing_attribute("type", "artifact")); },
            Some(t) => match ArtifactKind::from_str(t.as_str()) {
                Ok(k) => k,
                Err(_) => {
                    return Err(ParseError::invalid_value(t.as_str(), "type", "artifact"));
                },
            },
        };
        let mut builder = ArtifactBuilder::default().kind(kind);
        match e.attribute("platform") {
            Some(p) => {
                builder = builder.platform(p.as_str());
            },
            None => {},
        }
        let ghost start = builder@;
        let mut i: usize = 0;
        while i < e.children.len()
            invariant
                i <= e.children@.len(),
                Artifact::spec_try_from(*e) == match artifact_fold(start, e.children@) {
                    Err(err) => Err(err),
                    Ok(a) => match a.build() {
                        Ok(artifact) => Ok(artifact),
                        Err(_) => Err(ParseErrorView::MissingTag("location"@)),
                    },
                },
                artifact_fold(start, e.children@.take(i as int)) == Ok::<
                    ArtifactBuilderView,
                    ParseErrorView,
                >(builder@),
            decreases e.children@.len() - i,
        {
            proof {
                assert(e.children@.take(i + 1).drop_last() =~= e.children@.take(i as int));
                assert(e.children@.take(i + 1).last() == e.children@[i as int]);
            }
            match Artifact::read_child(builder, &e.children[i]) {
                Ok(next) => {
                    builder = next;
                },
                Err(err) => {
                    proof {
                        lemma_artifact_fold_fails(start, e.children@, i + 1);
                    }
                    return Err(err);
                },
            }
            i += 1;
        }
        proof {
            assert(e.children@.take(i as int) =~= e.children@);
        }
        match builder.build() {
            Ok(artifact) => Ok(artifact),
            Err(_) => Err(ParseError::missing_tag("location")),
        }
    }
}

impl FromElement for Artifact {
    open spec fn spec_from_element(e: Element) -> Result<ArtifactView, ParseErrorView> {
        Artifact::spec_try_from(e)
    }

    fn from_element(e: &Element) -> (r: Result<Self, ParseError>) {
        Artifact::try_from(e)
    }

    proof fn lemma_model_decides(a: Element, b: Element) {
        lemma_same_attribute(a, b, "type"@);
        lemma_same_attribute(a, b, "platform"@);
        match a.spec_attribute("type"@) {
            Some(t) => match ArtifactKind::spec_from_str(t) {
                Some(kind) => {
                    lemma_same_artifact_fold(
                        ArtifactBuilderView {
                            kind: Some(kind),
                            platform: a.spec_attribute("platform"@),
                            ..ArtifactBuilderView::empty()
                        },
                        a.children@,
                        b.children@,
                    );
                },
                None => {},
            },
            None => {},
        }
    }
}

impl Clone for Artifact {
    /// An artifact with the same parts.
    fn clone(&self) -> (r: Self)
        ensures
            r@ == self@,
    {
        let mut sizes: Vec<Size> = Vec::new();
        let mut i: usize = 0;
        while i < self.sizes.len()
            invariant
                i <= self.sizes@.len(),
                sizes@ =~= self.sizes@.take(i as int),
            decreases self.sizes@.len() - i,
        {
            sizes.push(self.sizes[i]);
            i += 1;
        }
        let mut checksums: Vec<Checksum> = Vec::new();
        let mut j: usize = 0;
        while j < self.checksums.len()
            invariant
                j <= self.checksums@.len(),
                checksums@ =~= self.checksums@.take(j as int),
            decreases self.checksums@.len() - j,
        {
            checksums.push(self.checksums[j].clone());
            j += 1;
        }
        let mut bundles: Vec<Bundle> = Vec::new();
        let mut k: usize = 0;
        while k < self.bundles.len()
            invariant
                k <= self.bundles@.len(),
                bundles@ =~= self.bundles@.take(k as int),
            decreases self.bundles@.len() - k,
        {
            bundles.push(self.bundles[k].clone());
            k += 1;
        }
        proof {
            assert(sizes@ =~= self.sizes@);
            assert(checksums@ =~= self.checksums@);
            assert(bundles@ =~= self.bundles@);
        }
        Artifact {
            platform: match &self.platform {
                Some(p) => Some(p.clone()),
                None => None,
            },
            kind: self.kind,
            sizes,
            url: clone_url(&self.url),
            checksums,
            bundles,
        }
    }
}

/// The instant that attribute `name` of a release element gives: `None`
/// where the attribute is missing, an error where it is no date.
pub open spec fn release_date(e: Element, name: Seq<char>) -> Result<
    Option<DateTime>,
    ParseErrorView,
> {
    match e.spec_attribute(name) {
        None => Ok(None),
        Some(d) => match date_of(d) {
            Some(date) => Ok(Some(date)),
            None => Err(ParseErrorView::InvalidValue(d, name, "release"@)),
        },
    }
}

/// Reads the instant that attribute `name` of a release element gives.
pub fn read_release_date(e: &Element, name: &str) -> (r: Result<Option<DateTime>, ParseError>)
    ensures
        match r {
            Ok(d) => release_date(*e, name@) == Ok::<Option<DateTime>, ParseErrorView>(d),
            Err(err) => release_date(*e, name@) == Err::<Option<DateTime>, ParseErrorView>(err@),
        },
{
    match e.attribute(name) {
        None => Ok(None),
        Some(d) => match deserialize_date(d.as_str()) {
            Some(date) => Ok(Some(date)),
            None => Err(ParseError::invalid_value(d.as_str(), name, "release")),
        },
    }
}

/// The release that the attributes of a `release` element give. `version`
/// is required. `date`, `timestamp` and `date_eol` are dates where they are
/// there, and a `timestamp` counts in place of the `date`. `urgency` and
/// `type` name the urgency and the kind, which are medium and stable where
/// the attribute is missing. The attributes are read in this order, and the
/// first that fails decides the error.
pub open spec fn release_head(e: Element) -> Result<ReleaseView, ParseErrorView> {
    match e.spec_attribute("version"@) {
        None => Err(ParseErrorView::MissingAttribute("version"@, "release"@)),
        Some(version) => match release_date(e, "date"@) {
            Err(err) => Err(err),
            Ok(date) => match release_date(e, "timestamp"@) {
                Err(err) => Err(err),
                Ok(timestamp) => match release_date(e, "date_eol"@) {
                    Err(err) => Err(err),
                    Ok(date_eol) => {
                        let urgency = match e.spec_attribute("urgency"@) {
                            None => Ok(ReleaseUrgency::Medium),
                            Some(u) => match ReleaseUrgency::spec_from_str(u) {
                                Some(v) => Ok(v),
                                None => Err(
                                    ParseErrorView::InvalidValue(u, "urgency"@, "release"@),
                                ),
                            },
                        };
                        match urgency {
                            Err(err) => Err(err),
                            Ok(urgency) => {
                                let kind = match e.spec_attribute("type"@) {
                                    None => Ok(ReleaseKind::Stable),
                                    Some(k) => match ReleaseKind::spec_from_str(k) {
                                        Some(v) => Ok(v),
                                        None => Err(
                                            ParseErrorView::InvalidValue(k, "type"@, "release"@),
                                        ),
                                    },
                                };
                                match kind {
                                    Err(err) => Err(err),
                                    Ok(kind) => Ok(
                                        ReleaseView {
                                            date: match timestamp {
                                                Some(t) => Some(t),
                                                None => date,
                                            },
                                            date_eol,
                                            urgency,
                                            kind,
                                            ..ReleaseView::new(version)
                                        },
                                    ),
                                }
                            },
                        }
                    },
                },
            },
        },
    }
}

/// The release `r` after child `node` of its element is read: the artifacts
/// of an `artifacts` child and a `size` join those that are there, a
/// `description` is added to the description under its locale, and a `url`
/// sets the address of the changelog; every other node is passed over.
pub open spec fn release_step(r: ReleaseView, node: Node) -> Result<ReleaseView, ParseErrorView> {
    match node {
        Node::Element(c) => if c.name@ == "artifacts"@ {
            match collected::<Artifact>(c.children@, "artifact"@) {
                Ok(artifacts) => Ok(ReleaseView { artifacts: r.artifacts + artifacts, ..r }),
                Err(err) => Err(err),
            }
        } else if c.name@ == "size"@ {
            match Size::spec_try_from(c) {
                Ok(size) => Ok(ReleaseView { sizes: r.sizes.push(size), ..r }),
                Err(err) => Err(err),
            }
        } else if c.name@ == "description"@ {
            let before = match r.description {
                Some(m) => m,
                None => Map::empty(),
            };
            Ok(
                ReleaseView {
                    description: Some(before.insert(element_locale(c), markup_in(c.children@))),
                    ..r
                },
            )
        } else if c.name@ == "url"@ {
            match c.spec_text() {
                None => Err(ParseErrorView::MissingValue("url"@)),
                Some(val) => match url_parse(val) {
                    Ok(url) => Ok(ReleaseView { url: Some(url), ..r }),
                    Err(m) => Err(ParseErrorView::UrlParseError(m)),
                },
            }
        } else {
            Ok(r)
        },
        _ => Ok(r),
    }
}

/// The release `r` after `children` are read in order; the first child that
/// fails decides the error.
pub open spec fn release_fold(r: ReleaseView, children: Seq<Node>) -> Result<
    ReleaseView,
    ParseErrorView,
>
    decreases children.len(),
{
    if children.len() == 0 {
        Ok(r)
    } else {
        match release_fold(r, children.drop_last()) {
            Ok(before) => release_step(before, children.last()),
            Err(err) => Err(err),
        }
    }
}

/// Where a prefix of the children fails, all of them fail in the same way.
pub proof fn lemma_release_fold_fails(r: ReleaseView, children: Seq<Node>, k: int)
    requires
        0 <= k <= children.len(),
        release_fold(r, children.take(k)) is Err,
    ensures
        release_fold(r, children) == release_fold(r, children.take(k)),
    decreases children.len() - k,
{
    if k == children.len() {
        assert(children.take(k) =~= children);
    } else {
        assert(children.take(k + 1).drop_last() =~= children.take(k));
        lemma_release_fold_fails(r, children, k + 1);
    }
}

impl Release {
    /// The release that a `release` element denotes: its attributes give
    /// what [`release_head`] says, and its children the artifacts, the sizes,
    /// the description and the address of the changelog.
    pub open spec fn spec_try_from(e: Element) -> Result<ReleaseView, ParseErrorView> {
        match release_head(e) {
            Err(err) => Err(err),
            Ok(head) => release_fold(head, e.children@),
        }
    }

    /// Reads the attributes of a release element.
    fn read_head(e: &Element) -> (r: Result<Release, ParseError>)
        ensures
            result_view(r) == release_head(*e),
    {
        let version = match e.attribute("version") {
            Some(v) => v.clone(),
            None => { return Err(ParseError::missing_attribute("version", "release")); },
        };
        let date = match read_release_date(e, "date") {
            Ok(d) => d,
            Err(err) => { return Err(err); },
        };
        let timestamp = match read_release_date(e, "timestamp") {
            Ok(d) => d,
            Err(err) => { return Err(err); },
        };
        let date_eol = match read_release_date(e, "date_eol") {
            Ok(d) => d,
            Err(err) => { return Err(err); },
        };
        let urgency = match e.attribute("urgency") {
            None => ReleaseUrgency::Medium,
            Some(u) => match ReleaseUrgency::from_str(u.as_str()) {
                Ok(v) => v,
                Err(_) => {
                    return Err(ParseError::invalid_value(u.as_str(), "urgency", "release"));
                },
            },
        };
        let kind = match e.attribute("type") {
            None => ReleaseKind::Stable,
            Some(k) => match ReleaseKind::from_str(k.as_str()) {
                Ok(v) => v,
                Err(_) => { return Err(ParseError::invalid_value(k.as_str(), "type", "release")); },
            },
        };
        let r = Release {
            date: match timestamp {
                Some(t) => Some(t),
                None => date,
            },
            date_eol,
            version,
            description: None,
            kind,
            sizes: Vec::new(),
            urgency,
            artifacts: Vec::new(),
            url: None,
            issues: Vec::new(),
        };
        proof {
            assert(views(r.artifacts@) =~= Seq::<ArtifactView>::empty());
            assert(views(r.issues@) =~= Seq::<IssueView>::empty());
        }
        Ok(r)
    }

    /// Reads child `node` of a release element into `self`.
    fn read_child(self, node: &Node) -> (r: Result<Release, ParseError>)
        ensures
            result_view(r) == release_step(self@, *node),
    {
        let mut release = self;
        match node {
            Node::Element(c) => {
                if str_eq(c.name.as_str(), "artifacts") {
                    match collect::<Artifact>(&c.children, "artifact") {
                        Ok(mut artifacts) => {
                            proof {
                                lemma_views_add(release.artifacts@, artifacts@);
                            }
                            release.artifacts.append(&mut artifacts);
                            Ok(release)
                        },
                        Err(err) => Err(err),
                    }
                } else if str_eq(c.name.as_str(), "size") {
                    match Size::try_from(c) {
                        Ok(size) => {
                            release.sizes.push(size);
                            Ok(release)
                        },
                        Err(err) => Err(err),
                    }
                } else if str_eq(c.name.as_str(), "description") {
                    let mut description = match release.description {
                        Some(d) => d,
                        None => MarkupTranslatableString::default(),
                    };
                    description.add_for_element(c);
                    release.description = Some(description);
                    Ok(release)
                } else if str_eq(c.name.as_str(), "url") {
                    let val = match c.get_text() {
                        Some(v) => v,
                        None => { return Err(ParseError::missing_value("url")); },
                    };
                    match read_url(val.as_str()) {
                        Ok(url) => {
                            release.url = Some(url);
                            Ok(release)
                        },
                        Err(err) => Err(err),
                    }
                } else {
                    Ok(release)
                }
            },
            _ => Ok(release),
        }
    }
}

impl Release {
    /// Reads the release that `e` denotes: see [`Release::spec_try_from`].
    pub fn try_from(e: &Element) -> (r: Result<Self, ParseError>)
        ensures
            result_view(r) == Release::spec_try_from(*e),
    {
        let mut release = match Release::read_head(e) {
            Ok(r) => r,
            Err(err) => { return Err(err); },
        };
        let ghost start = release@;
        let mut i: usize = 0;
        while i < e.children.len()
            invariant
                i <= e.children@.len(),
                Release::spec_try_from(*e) == release_fold(start, e.children@),
                release_fold(start, e.children@.take(i as int)) == Ok::<
                    ReleaseView,
                    ParseErrorView,
                >(release@),
            decreases e.children@.len() - i,
        {
            proof {
                assert(e.children@.take(i + 1).drop_last() =~= e.children@.take(i as int));
                assert(e.children@.take(i + 1).last() == e.children@[i as int]);
            }
            match release.read_child(&e.children[i]) {
                Ok(next) => {
                    release = next;
                },
                Err(err) => {
                    proof {
                        lemma_release_fold_fails(start, e.children@, i + 1);
                    }
                    return Err(err);
                },
            }
            i += 1;
        }
        proof {
            assert(e.children@.take(i as int) =~= e.children@);
        }
        Ok(release)
    }
}

impl FromElement for Release {
    open spec fn spec_from_element(e: Element) -> Result<ReleaseView, ParseErrorView> {
        Release::spec_try_from(e)
    }

    fn from_element(e: &Element) -> (r: Result<Self, ParseError>) {
        Release::try_from(e)
    }

    proof fn lemma_model_decides(a: Element, b: Element) {
        lemma_same_release_head(a, b);
        match release_head(a) {
            Ok(head) => {
                lemma_same_release_fold(head, a.children@, b.children@);
            },
            Err(_) => {},
        }
    }
}

/// Nodes with the same model change an artifact in the same way.
pub proof fn lemma_same_artifact_step(s: ArtifactBuilderView, a: Node, b: Node)
    requires
        node_model(a) == node_model(b),
    ensures
        artifact_step(s, a) == artifact_step(s, b),
{
    lemma_same_node_model(a, b);
    match (a, b) {
        (Node::Element(x), Node::Element(y)) => {
            lemma_same_text(x, y);
            lemma_size_model_decides(x, y);
            lemma_checksum_model_decides(x, y);
            lemma_bundle_model_decides(x, y);
        },
        _ => {},
    }
}

/// Children with the same models change an artifact in the same way.
pub proof fn lemma_same_artifact_fold(s: ArtifactBuilderView, a: Seq<Node>, b: Seq<Node>)
    requires
        nodes_model(a) == nodes_model(b),
    ensures
        artifact_fold(s, a) == artifact_fold(s, b),
    decreases a.len(),
{
    lemma_same_models_split(a, b);
    if a.len() > 0 {
        lemma_same_artifact_fold(s, a.drop_last(), b.drop_last());
        match artifact_fold(s, a.drop_last()) {
            Ok(before) => {
                lemma_same_artifact_step(before, a.last(), b.last());
            },
            Err(_) => {},
        }
    }
}

/// Elements with the same model give the same date under each attribute,
/// and the same release by their attributes.
pub proof fn lemma_same_release_head(a: Element, b: Element)
    requires
        a.model() == b.model(),
    ensures
        forall|name: Seq<char>| release_date(a, name) == release_date(b, name),
        release_head(a) == release_head(b),
{
    assert forall|name: Seq<char>| release_date(a, name) == release_date(b, name) by {
        lemma_same_attribute(a, b, name);
    }
    lemma_same_attribute(a, b, "version"@);
    lemma_same_attribute(a, b, "urgency"@);
    lemma_same_attribute(a, b, "type"@);
}

/// Nodes with the same model change a release in the same way.
pub proof fn lemma_same_release_step(s: ReleaseView, a: Node, b: Node)
    requires
        node_model(a) == node_model(b),
    ensures
        release_step(s, a) == release_step(s, b),
{
    lemma_same_node_model(a, b);
    match (a, b) {
        (Node::Element(x), Node::Element(y)) => {
            lemma_same_collected::<Artifact>(x.children@, y.children@, "artifact"@);
            lemma_size_model_decides(x, y);
            lemma_same_locale_and_text(x, y);
            lemma_same_text(x, y);
        },
        _ => {},
    }
}

/// Children with the same models change a release in the same way.
pub proof fn lemma_same_release_fold(s: ReleaseView, a: Seq<Node>, b: Seq<Node>)
    requires
        nodes_model(a) == nodes_model(b),
    ensures
        release_fold(s, a) == release_fold(s, b),
    decreases a.len(),
{
    lemma_same_models_split(a, b);
    if a.len() > 0 {
        lemma_same_release_fold(s, a.drop_last(), b.drop_last());
        match release_fold(s, a.drop_last()) {
            Ok(before) => {
                lemma_same_release_step(before, a.last(), b.last());
            },
            Err(_) => {},
        }
    }
}

} // verus!
