//! Screenshots, with their images and videos.
use vstd::prelude::*;
use url::Url;
use crate::element::{Element, Node};
use crate::enums::kinds::ImageKind;
use crate::error::{ParseError, ParseErrorView};
use crate::links::{clone_url, read_url, url_parse};
use crate::text::{bounded_decimal, parse_u32, str_eq};
use crate::translatable_string::{element_locale, element_text, TranslatableString};
use crate::views::{lemma_views_push, option_view, result_view, views};
use crate::walk::FromElement;
use crate::element::{node_model, nodes_model};
use crate::model::{
    lemma_same_attribute, lemma_same_models_split, lemma_same_node_model, lemma_same_text,
};
use crate::translatable_string::lemma_same_locale_and_text;

verus! {

/// A screenshot image.
#[derive(Debug, PartialEq)]
pub struct Image {
    /// The image type, either a source or a thumbnail.
    pub kind: ImageKind,
    /// The image width.
    pub width: Option<u32>,
    /// The image height.
    pub height: Option<u32>,
    /// The image url.
    pub url: Url,
}

impl View for Image {
    type V = Image;

    open spec fn view(&self) -> Image {
        *self
    }
}

/// A screenshot video.
#[derive(Debug, PartialEq)]
pub struct Video {
    /// The video width.
    pub width: Option<u32>,
    /// The video height.
    pub height: Option<u32>,
    /// The video codec. Possible values are `vp9` or `av1`.
    pub codec: Option<String>,
    /// The video container. Possible values are Matroska(.mkv) or WebM.
    pub container: Option<String>,
    /// The video url.
    pub url: Url,
}

/// A [`Video`] with its strings as character sequences.
pub struct VideoView {
    pub width: Option<u32>,
    pub height: Option<u32>,
    pub codec: Option<Seq<char>>,
    pub container: Option<Seq<char>>,
    pub url: Url,
}

impl View for Video {
    type V = VideoView;

    open spec fn view(&self) -> VideoView {
        VideoView {
            width: self.width,
            height: self.height,
            codec: option_view(self.codec),
            container: option_view(self.container),
            url: self.url,
        }
    }
}

/// Defines a visual representation of the `Component`.
#[derive(Clone, Debug, PartialEq)]
pub struct Screenshot {
    /// Whether the current screenshot is the default one.
    pub is_default: bool,
    /// A translatable small description of the current screenshot.
    pub caption: Option<TranslatableString>,
    /// The list of images the current screenshot has.
    pub images: Vec<Image>,
    /// The list of videos the current screenshot has.
    pub videos: Vec<Video>,
}

/// A [`Screenshot`] with its parts as views.
pub struct ScreenshotView {
    pub is_default: bool,
    pub caption: Option<Map<Seq<char>, Seq<char>>>,
    pub images: Seq<Image>,
    pub videos: Seq<VideoView>,
}

impl View for Screenshot {
    type V = ScreenshotView;

    open spec fn view(&self) -> ScreenshotView {
        ScreenshotView {
            is_default: self.is_default,
            caption: option_view(self.caption),
            images: self.images@,
            videos: views(self.videos@),
        }
    }
}

impl Default for Screenshot {
    fn default() -> (r: Self)
        ensures
            r@ == (ScreenshotView {
                is_default: false,
                caption: None,
                images: Seq::empty(),
                videos: Seq::empty(),
            }),
    {
        let r = Screenshot {
            is_default: false,
            caption: None,
            images: Vec::new(),
            videos: Vec::new(),
        };
        assert(views(r.videos@) =~= Seq::<VideoView>::empty());
        r
    }
}

/// The number of pixels that attribute `name` of `e` gives: `None` where the
/// attribute is missing, an error of tag `tag` where it is no number.
pub open spec fn strict_dimension(e: Element, name: Seq<char>, tag: Seq<char>) -> Result<
    Option<u32>,
    ParseErrorView,
> {
    match e.spec_attribute(name) {
        None => Ok(None),
        Some(v) => match bounded_decimal(v, u32::MAX as nat) {
            Some(n) => Ok(Some(n as u32)),
            None => Err(ParseErrorView::InvalidValue(v, name, tag)),
        },
    }
}

/// The number of pixels that attribute `name` of `e` gives: `None` where the
/// attribute is missing, an error of tag `tag` where it is no number.
pub fn read_strict_dimension(e: &Element, name: &str, tag: &str) -> (r: Result<
    Option<u32>,
    ParseError,
>)
    ensures
        match r {
            Ok(d) => strict_dimension(*e, name@, tag@) == Ok::<Option<u32>, ParseErrorView>(d),
            Err(err) => strict_dimension(*e, name@, tag@) == Err::<Option<u32>, ParseErrorView>(
                err@,
            ),
        },
{
    match e.attribute(name) {
        None => Ok(None),
        Some(v) => match parse_u32(v.as_str()) {
            Some(n) => Ok(Some(n)),
            None => Err(ParseError::invalid_value(v.as_str(), name, tag)),
        },
    }
}

impl Image {
    /// The image that an `image` element denotes: its text, which is
    /// required, is the address; its `type` attribute names the kind, the
    /// source where it is missing; `width` and `height` are numbers where
    /// they are there.
    pub open spec fn spec_try_from(e: Element) -> Result<Image, ParseErrorView> {
        match e.spec_text() {
            None => Err(ParseErrorView::MissingValue("image"@)),
            Some(val) => match url_parse(val) {
                Err(m) => Err(ParseErrorView::UrlParseError(m)),
                Ok(url) => {
                    let kind = match e.spec_attribute("type"@) {
                        None => Ok(ImageKind::Source),
                        Some(t) => match ImageKind::spec_from_str(t) {
                            Some(k) => Ok(k),
                            None => Err(ParseErrorView::InvalidValue(t, "type"@, "image"@)),
                        },
                    };
                    match kind {
                        Err(err) => Err(err),
                        Ok(kind) => match strict_dimension(e, "width"@, "image"@) {
                            Err(err) => Err(err),
                            Ok(width) => match strict_dimension(e, "height"@, "image"@) {
                                Err(err) => Err(err),
                                Ok(height) => Ok(Image { kind, width, height, url }),
                            },
                        },
                    }
                },
            },
        }
    }
}

impl Image {
    /// Reads the image that `e` denotes: see [`Image::spec_try_from`].
    pub fn try_from(e: &Element) -> (r: Result<Self, ParseError>)
        ensures
            result_view(r) == Image::spec_try_from(*e),
    {
        let val = match e.get_text() {
            Some(v) => v,
            None => { return Err(ParseError::missing_value("image")); },
        };
        let url = match read_url(val.as_str()) {
            Ok(u) => u,
            Err(err) => { return Err(err); },
        };
        let kind = match e.attribute("type") {
            None => ImageKind::Source,
            Some(t) => match ImageKind::from_str(t.as_str()) {
                Ok(k) => k,
                Err(_) => { return Err(ParseError::invalid_value(t.as_str(), "type", "image")); },
            },
        };
        let width = match read_strict_dimension(e, "width", "image") {
            Ok(w) => w,
            Err(err) => { return Err(err); },
        };
        let height = match read_strict_dimension(e, "height", "image") {
            Ok(h) => h,
            Err(err) => { return Err(err); },
        };
        Ok(Image { kind, width, height, url })
    }
}

impl Video {
    /// The video that a `video` element denotes: its text, which is
    /// required, is the address; `container` and `codec` are taken as they
    /// stand; `width` and `height` are numbers where they are there.
    pub open spec fn spec_try_from(e: Element) -> Result<VideoView, ParseErrorView> {
        match e.spec_text() {
            None => Err(ParseErrorView::MissingValue("video"@)),
            Some(val) => match url_parse(val) {
                Err(m) => Err(ParseErrorView::UrlParseError(m)),
                Ok(url) => match strict_dimension(e, "width"@, "video"@) {
                    Err(err) => Err(err),
                    Ok(width) => match strict_dimension(e, "height"@, "video"@) {
                        Err(err) => Err(err),
                        Ok(height) => Ok(
                            VideoView {
                                width,
                                height,
                                codec: e.spec_attribute("codec"@),
                                container: e.spec_attribute("container"@),
                                url,
                            },
                        ),
                    },
                },
            },
        }
    }
}

impl Video {
    /// Reads the video that `e` denotes: see [`Video::spec_try_from`].
    pub fn try_from(e: &Element) -> (r: Result<Self, ParseError>)
        ensures
            result_view(r) == Video::spec_try_from(*e),
    {
        let val = match e.get_text() {
            Some(v) => v,
            None => { return Err(ParseError::missing_value("video")); },
        };
        let url = match read_url(val.as_str()) {
            Ok(u) => u,
            Err(err) => { return Err(err); },
        };
        let container = match e.attribute("container") {
            Some(c) => Some(c.clone()),
            None => None,
        };
        let codec = match e.attribute("codec") {
            Some(c) => Some(c.clone()),
            None => None,
        };
        let width = match read_strict_dimension(e, "width", "video") {
            Ok(w) => w,
            Err(err) => { return Err(err); },
        };
        let height = match read_strict_dimension(e, "height", "video") {
            Ok(h) => h,
            Err(err) => { return Err(err); },
        };
        Ok(Video { width, height, codec, container, url })
    }
}

/// The screenshot `s` after child `node` of its element is read: an `image`
/// or a `video` joins those that are there, a `caption` is added to the
/// caption under its locale, and every other node is passed over.
pub open spec fn screenshot_step(s: ScreenshotView, node: Node) -> Result<
    ScreenshotView,
    ParseErrorView,
> {
    match node {
        Node::Element(c) => if c.name@ == "image"@ {
            match Image::spec_try_from(c) {
                Ok(image) => Ok(ScreenshotView { images: s.images.push(image), ..s }),
                Err(err) => Err(err),
            }
        } else if c.name@ == "caption"@ {
            let before = match s.caption {
                Some(m) => m,
                None => Map::empty(),
            };
            Ok(
                ScreenshotView {
                    caption: Some(before.insert(element_locale(c), element_text(c))),
                    ..s
                },
            )
        } else if c.name@ == "video"@ {
            match Video::spec_try_from(c) {
                Ok(video) => Ok(ScreenshotView { videos: s.videos.push(video), ..s }),
                Err(err) => Err(err),
            }
        } else {
            Ok(s)
        },
        _ => Ok(s),
    }
}

/// The screenshot `s` after `children` are read in order; the first child
/// that fails decides the error.
pub open spec fn screenshot_fold(s: ScreenshotView, children: Seq<Node>) -> Result<
    ScreenshotView,
    ParseErrorView,
>
    decreases children.len(),
{
    if children.len() == 0 {
        Ok(s)
    } else {
        match screenshot_fold(s, children.drop_last()) {
            Ok(before) => screenshot_step(before, children.last()),
            Err(err) => Err(err),
        }
    }
}

/// Where a prefix of the children fails, all of them fail in the same way.
pub proof fn lemma_screenshot_fold_fails(s: ScreenshotView, children: Seq<Node>, k: int)
    requires
        0 <= k <= children.len(),
        screenshot_fold(s, children.take(k)) is Err,
    ensures
        screenshot_fold(s, children) == screenshot_fold(s, children.take(k)),
    decreases children.len() - k,
{
    if k == children.len() {
        assert(children.take(k) =~= children);
    } else {
        assert(children.take(k + 1).drop_last() =~= children.take(k));
        lemma_screenshot_fold_fails(s, children, k + 1);
    }
}

impl Screenshot {
    /// The screenshot that a `screenshot` element denotes: it is the default
    /// one exactly when its `type` attribute is `default`; its children give
    /// the caption, the images and the videos.
    pub open spec fn spec_try_from(e: Element) -> Result<ScreenshotView, ParseErrorView> {
        screenshot_fold(
            ScreenshotView {
                is_default: e.spec_attribute("type"@) == Some("default"@),
                caption: None,
                images: Seq::empty(),
                videos: Seq::empty(),
            },
            e.children@,
        )
    }

    /// Reads child `node` of a screenshot element into `self`.
    fn read_child(self, node: &Node) -> (r: Result<Screenshot, ParseError>)
        ensures
            result_view(r) == screenshot_step(self@, *node),
    {
        let mut s = self;
        match node {
            Node::Element(c) => {
                if str_eq(c.name.as_str(), "image") {
                    match Image::try_from(c) {
                        Ok(image) => {
                            s.images.push(image);
                            Ok(s)
                        },
                        Err(err) => Err(err),
                    }
                } else if str_eq(c.name.as_str(), "caption") {
                    let mut caption = match s.caption {
                        Some(t) => t,
                        None => TranslatableString::default(),
                    };
                    caption.add_for_element(c);
                    s.caption = Some(caption);
                    Ok(s)
                } else if str_eq(c.name.as_str(), "video") {
                    match Video::try_from(c) {
                        Ok(video) => {
                            proof {
                                lemma_views_push(s.videos@, video);
                            }
                            s.videos.push(video);
                            Ok(s)
                        },
                        Err(err) => Err(err),
                    }
                } else {
                    Ok(s)
                }
            },
            _ => Ok(s),
        }
    }
}

impl Screenshot {
    /// Reads the screenshot that `e` denotes: see [`Screenshot::spec_try_from`].
    pub fn try_from(e: &Element) -> (r: Result<Self, ParseError>)
        ensures
            result_view(r) == Screenshot::spec_try_from(*e),
    {
        let is_default = match e.attribute("type") {
            Some(t) => str_eq(t.as_str(), "default"),
            None => false,
        };
        let mut s = Screenshot {
            is_default,
            caption: None,
            images: Vec::new(),
            videos: Vec::new(),
        };
        let ghost start = s@;
        proof {
            assert(views(s.videos@) =~= Seq::<VideoView>::empty());
        }
        let mut i: usize = 0;
        while i < e.children.len()
            invariant
                i <= e.children@.len(),
                Screenshot::spec_try_from(*e) == screenshot_fold(start, e.children@),
                screenshot_fold(start, e.children@.take(i as int)) == Ok::<
                    ScreenshotView,
                    ParseErrorView,
                >(s@),
            decreases e.children@.len() - i,
        {
            proof {
                assert(e.children@.take(i + 1).drop_last() =~= e.children@.take(i as int));
                assert(e.children@.take(i + 1).last() == e.children@[i as int]);
            }
            match s.read_child(&e.children[i]) {
                Ok(next) => {
                    s = next;
                },
                Err(err) => {
                    proof {
                        lemma_screenshot_fold_fails(start, e.children@, i + 1);
                    }
                    return Err(err);
                },
            }
            i += 1;
        }
        proof {
            assert(e.children@.take(i as int) =~= e.children@);
        }
        Ok(s)
    }
}

impl FromElement for Screenshot {
    open spec fn spec_from_element(e: Element) -> Result<ScreenshotView, ParseErrorView> {
        Screenshot::spec_try_from(e)
    }

    fn from_element(e: &Element) -> (r: Result<Self, ParseError>) {
        Screenshot::try_from(e)
    }

    proof fn lemma_model_decides(a: Element, b: Element) {
        lemma_same_attribute(a, b, "type"@);
        lemma_same_screenshot_fold(
            ScreenshotView {
                is_default: a.spec_attribute("type"@) == Some("default"@),
                caption: None,
                images: Seq::empty(),
                videos: Seq::empty(),
            },
            a.children@,
            b.children@,
        );
    }
}

impl Clone for Image {
    fn clone(&self) -> (r: Self)
        ensures
            r == *self,
    {
        Image { kind: self.kind, width: self.width, height: self.height, url: clone_url(&self.url) }
    }
}

impl Clone for Video {
    fn clone(&self) -> (r: Self)
        ensures
            r@ == self@,
    {
        Video {
            width: self.width,
            height: self.height,
            codec: match &self.codec {
                Some(c) => Some(c.clone()),
                None => None,
            },
            container: match &self.container {
                Some(c) => Some(c.clone()),
                None => None,
            },
            url: clone_url(&self.url),
        }
    }
}

/// Elements with the same model denote the same image.
pub proof fn lemma_image_model_decides(a: Element, b: Element)
    requires
        a.model() == b.model(),
    ensures
        Image::spec_try_from(a) == Image::spec_try_from(b),
{
    lemma_same_text(a, b);
    lemma_same_attribute(a, b, "type"@);
    lemma_same_attribute(a, b, "width"@);
    lemma_same_attribute(a, b, "height"@);
}

/// Elements with the same model denote the same video.
pub proof fn lemma_video_model_decides(a: Element, b: Element)
    requires
        a.model() == b.model(),
    ensures
        Video::spec_try_from(a) == Video::spec_try_from(b),
{
    lemma_same_text(a, b);
    lemma_same_attribute(a, b, "width"@);
    lemma_same_attribute(a, b, "height"@);
    lemma_same_attribute(a, b, "codec"@);
    lemma_same_attribute(a, b, "container"@);
}

/// Nodes with the same model change a screenshot in the same way.
pub proof fn lemma_same_screenshot_step(s: ScreenshotView, a: Node, b: Node)
    requires
        node_model(a) == node_model(b),
    ensures
        screenshot_step(s, a) == screenshot_step(s, b),
{
    lemma_same_node_model(a, b);
    match (a, b) {
        (Node::Element(x), Node::Element(y)) => {
            lemma_image_model_decides(x, y);
            lemma_video_model_decides(x, y);
            lemma_same_locale_and_text(x, y);
        },
        _ => {},
    }
}

/// Children with the same models change a screenshot in the same way.
pub proof fn lemma_same_screenshot_fold(s: ScreenshotView, a: Seq<Node>, b: Seq<Node>)
    requires
        nodes_model(a) == nodes_model(b),
    ensures
        screenshot_fold(s, a) == screenshot_fold(s, b),
    decreases a.len(),
{
    lemma_same_models_split(a, b);
    if a.len() > 0 {
        lemma_same_screenshot_fold(s, a.drop_last(), b.drop_last());
        match screenshot_fold(s, a.drop_last()) {
            Ok(before) => {
                lemma_same_screenshot_step(before, a.last(), b.last());
            },
            Err(_) => {},
        }
    }
}

} // verus!
