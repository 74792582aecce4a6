//! Conversion of the children of an element, one after the other.
use vstd::prelude::*;
use crate::element::{Element, Node};
use crate::error::{ParseError, ParseErrorView};
use crate::views::{lemma_views_push, result_view, views};
use crate::element::nodes_model;
use crate::model::{lemma_same_models_split, lemma_same_node_model};

verus! {

/// A type whose values are read from one element.
pub trait FromElement: View + Sized {
    /// The value that `e` denotes, or why it denotes none.
    spec fn spec_from_element(e: Element) -> Result<Self::V, ParseErrorView>;

    /// Reads the value that `e` denotes.
    fn from_element(e: &Element) -> (r: Result<Self, ParseError>)
        ensures
            result_view(r) == Self::spec_from_element(*e),
    ;

    /// Elements with the same model denote the same value: what an element
    /// denotes does not depend on the order of its attributes.
    proof fn lemma_model_decides(a: Element, b: Element)
        requires
            a.model() == b.model(),
        ensures
            Self::spec_from_element(a) == Self::spec_from_element(b),
    ;
}

/// The values that `children` denote, in order. Every child has to be an
/// element, else the result is the error that tag `tag` is misused. The first
/// child that fails decides the error.
pub open spec fn collected<T: FromElement>(children: Seq<Node>, tag: Seq<char>) -> Result<
    Seq<T::V>,
    ParseErrorView,
>
    decreases children.len(),
{
    if children.len() == 0 {
        Ok(Seq::empty())
    } else {
        match collected::<T>(children.drop_last(), tag) {
            Err(e) => Err(e),
            Ok(items) => match children.last() {
                Node::Element(c) => match T::spec_from_element(c) {
                    Ok(v) => Ok(items.push(v)),
                    Err(e) => Err(e),
                },
                _ => Err(ParseErrorView::InvalidTag(tag)),
            },
        }
    }
}

/// Where a prefix of the children fails, all of them fail in the same way.
pub proof fn lemma_collected_prefix_fails<T: FromElement>(
    children: Seq<Node>,
    tag: Seq<char>,
    k: int,
)
    requires
        0 <= k <= children.len(),
        collected::<T>(children.take(k), tag) is Err,
    ensures
        collected::<T>(children, tag) == collected::<T>(children.take(k), tag),
    decreases children.len() - k,
{
    if k == children.len() {
        assert(children.take(k) =~= children);
    } else {
        assert(children.take(k + 1).drop_last() =~= children.take(k));
        lemma_collected_prefix_fails::<T>(children, tag, k + 1);
    }
}

/// Reads the values that `children` denote: see [`collected`].
pub fn collect<T: FromElement>(children: &Vec<Node>, tag: &str) -> (r: Result<Vec<T>, ParseError>)
    ensures
        match r {
            Ok(items) => collected::<T>(children@, tag@) == Ok::<Seq<T::V>, ParseErrorView>(
                views(items@),
            ),
            Err(e) => collected::<T>(children@, tag@) == Err::<Seq<T::V>, ParseErrorView>(e@),
        },
{
    let mut items: Vec<T> = Vec::new();
    let mut i: usize = 0;
    proof {
        assert(views(items@) =~= Seq::<T::V>::empty());
    }
    while i < children.len()
        invariant
            i <= children@.len(),
            collected::<T>(children@.take(i as int), tag@) == Ok::<Seq<T::V>, ParseErrorView>(
                views(items@),
            ),
        decreases children@.len() - i,
    {
        proof {
            assert(children@.take(i + 1).drop_last() =~= children@.take(i as int));
            assert(children@.take(i + 1).last() == children@[i as int]);
        }
        match &children[i] {
            Node::Element(c) => match T::from_element(c) {
                Ok(v) => {
                    proof {
                        lemma_views_push(items@, v);
                    }
                    items.push(v);
                },
                Err(e) => {
                    proof {
                        lemma_collected_prefix_fails::<T>(children@, tag@, i + 1);
                    }
                    return Err(e);
                },
            },
            _ => {
                proof {
                    lemma_collected_prefix_fails::<T>(children@, tag@, i + 1);
                }
                return Err(ParseError::invalid_tag(tag));
            },
        }
        i += 1;
    }
    proof {
        assert(children@.take(i as int) =~= children@);
    }
    Ok(items)
}

/// Children with the same models denote the same values.
pub proof fn lemma_same_collected<T: FromElement>(a: Seq<Node>, b: Seq<Node>, tag: Seq<char>)
    requires
        nodes_model(a) == nodes_model(b),
    ensures
        collected::<T>(a, tag) == collected::<T>(b, tag),
    decreases a.len(),
{
    lemma_same_models_split(a, b);
    if a.len() > 0 {
        lemma_same_collected::<T>(a.drop_last(), b.drop_last(), tag);
        lemma_same_node_model(a.last(), b.last());
        match (a.last(), b.last()) {
            (Node::Element(x), Node::Element(y)) => {
                T::lemma_model_decides(x, y);
            },
            _ => {},
        }
    }
}

} // verus!
