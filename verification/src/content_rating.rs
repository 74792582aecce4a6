//! Content ratings.
use vstd::prelude::*;
use std::cmp::Ordering;
use crate::element::Element;
use crate::enums::content_attribute::ContentAttribute;
use crate::enums::kinds::{
    lemma_version_order_by_rank, version_order, version_rank, ContentRatingVersion,
};
use crate::error::{ParseError, ParseErrorView};
use crate::views::result_view;
use crate::walk::{collect, collected};
use crate::model::lemma_same_attribute;
use crate::walk::lemma_same_collected;

verus! {

/// Defines an Open Age Rating service.
#[derive(Clone, Debug, PartialEq)]
pub struct ContentRating {
    /// The version of the OARS specification.
    pub version: ContentRatingVersion,
    /// A list of attributes that defines the OARS.
    pub attributes: Vec<ContentAttribute>,
}

/// A [`ContentRating`] with its attributes as a sequence.
pub struct ContentRatingView {
    pub version: ContentRatingVersion,
    pub attributes: Seq<ContentAttribute>,
}

impl View for ContentRating {
    type V = ContentRatingView;

    open spec fn view(&self) -> ContentRatingView {
        ContentRatingView { version: self.version, attributes: self.attributes@ }
    }
}

/// The rating that stays when `next` is read after `kept`: the later one
/// only where its version compares greater.
pub open spec fn retained(
    kept: Option<ContentRatingView>,
    next: ContentRatingView,
) -> ContentRatingView {
    match kept {
        Some(k) => if version_order(next.version, k.version) == Ordering::Greater {
            next
        } else {
            k
        },
        None => next,
    }
}

/// The rating that stays of `ratings`, read in order.
pub open spec fn retained_of(ratings: Seq<ContentRatingView>) -> Option<ContentRatingView>
    decreases ratings.len(),
{
    if ratings.len() == 0 {
        None
    } else {
        Some(retained(retained_of(ratings.drop_last()), ratings.last()))
    }
}

/// The place of the rating that stays of `ratings`.
pub open spec fn retained_index(ratings: Seq<ContentRatingView>) -> int
    decreases ratings.len(),
{
    if ratings.len() <= 1 {
        0
    } else {
        let k = retained_index(ratings.drop_last());
        if version_order(ratings.last().version, ratings[k].version) == Ordering::Greater {
            ratings.len() - 1
        } else {
            k
        }
    }
}

/// Of several ratings the one that stays is the first of those with the
/// highest version: none has a higher version, and none before it has the
/// same one.
pub proof fn lemma_retained_is_first_highest(ratings: Seq<ContentRatingView>)
    requires
        ratings.len() > 0,
    ensures
        0 <= retained_index(ratings) < ratings.len(),
        retained_of(ratings) == Some(ratings[retained_index(ratings)]),
        forall|i: int|
            0 <= i < ratings.len() ==> version_rank((#[trigger] ratings[i]).version) <= version_rank(
                ratings[retained_index(ratings)].version,
            ),
        forall|i: int|
            0 <= i < retained_index(ratings) ==> version_rank((#[trigger] ratings[i]).version)
                < version_rank(ratings[retained_index(ratings)].version),
    decreases ratings.len(),
{
    if ratings.len() == 1 {
        assert(ratings.drop_last().len() == 0);
    } else {
        let front = ratings.drop_last();
        let k0 = retained_index(front);
        lemma_retained_is_first_highest(front);
        assert(front[k0] == ratings[k0]);
        lemma_version_order_by_rank(ratings.last().version, ratings[k0].version);
        let k = retained_index(ratings);
        assert forall|i: int| 0 <= i < ratings.len() implies version_rank(
            (#[trigger] ratings[i]).version,
        ) <= version_rank(ratings[k].version) by {
            if i < front.len() {
                assert(front[i] == ratings[i]);
            }
        }
        assert forall|i: int| 0 <= i < k implies version_rank((#[trigger] ratings[i]).version)
            < version_rank(ratings[k].version) by {
            assert(front[i] == ratings[i]);
        }
    }
}

impl ContentRating {
    /// The rating that a `content_rating` element denotes: its `type`
    /// attribute names the version, the unknown one where it is missing or not
    /// known; every child is an attribute of the rating.
    pub open spec fn spec_try_from(e: Element) -> Result<ContentRatingView, ParseErrorView> {
        let version = match e.spec_attribute("type"@) {
            Some(t) => ContentRatingVersion::spec_from_str(t),
            None => ContentRatingVersion::Unknown,
        };
        match collected::<ContentAttribute>(e.children@, "content-attribute"@) {
            Ok(attributes) => Ok(ContentRatingView { version, attributes }),
            Err(err) => Err(err),
        }
    }

    /// The rating to keep when `next` is read after `kept`: the later one
    /// only where its version compares greater.
    pub fn retain(kept: Option<ContentRating>, next: ContentRating) -> (r: ContentRating)
        ensures
            r@ == retained(
                match kept {
                    Some(k) => Some(k@),
                    None => None,
                },
                next@,
            ),
    {
        match kept {
            Some(k) => {
                match next.version.cmp(&k.version) {
                    Ordering::Greater => next,
                    _ => k,
                }
            },
            None => next,
        }
    }
}

impl ContentRating {
    /// Reads the content rating that `e` denotes: see [`ContentRating::spec_try_from`].
    pub fn try_from(e: &Element) -> (r: Result<Self, ParseError>)
        ensures
            result_view(r) == ContentRating::spec_try_from(*e),
    {
        let version = match e.attribute("type") {
            Some(t) => ContentRatingVersion::from_str(t.as_str()),
            None => ContentRatingVersion::Unknown,
        };
        match collect::<ContentAttribute>(&e.children, "content-attribute") {
            Ok(attributes) => {
                proof {
                    assert(crate::views::views(attributes@) =~= attributes@);
                }
                Ok(ContentRating { version, attributes })
            },
            Err(err) => Err(err),
        }
    }
}

/// Elements with the same model denote the same rating.
pub proof fn lemma_content_rating_model_decides(a: Element, b: Element)
    requires
        a.model() == b.model(),
    ensures
        ContentRating::spec_try_from(a) == ContentRating::spec_try_from(b),
{
    lemma_same_attribute(a, b, "type"@);
    lemma_same_collected::<ContentAttribute>(a.children@, b.children@, "content-attribute"@);
}

} // verus!
