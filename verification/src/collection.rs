//! Collections of components, and their conversion from a `components`
//! element.
use vstd::prelude::*;
use vstd::string::StringExecFns;
use crate::app_id::AppId;
use crate::component::{Component, ComponentView};
use crate::document::{gzipped_xml_document, xml_document};
use crate::element::{Element, ElementModel, Node};
use crate::error::{ParseError, ParseErrorView};
use crate::text::str_eq;
use crate::views::{lemma_views_push, option_view, result_view, views};
use crate::element::{node_model, nodes_model};
use crate::model::{lemma_same_attribute, lemma_same_models_split, lemma_same_node_model};
use crate::walk::FromElement;

verus! {

/// A collection is a wrapper around multiple components at once.
/// Provided by the source of the components (a repository).
#[derive(Clone, Debug, PartialEq)]
pub struct Collection {
    /// The specification version used on the components.
    pub version: String,
    /// The origin of the collection, could be something like `flathub`.
    pub origin: Option<String>,
    /// The components that are part of this collection.
    pub components: Vec<Component>,
    /// The targeted CPU architecture of the collection.
    pub architecture: Option<String>,
}

/// A [`Collection`] with its parts as views.
pub struct CollectionView {
    pub version: Seq<char>,
    pub origin: Option<Seq<char>>,
    pub components: Seq<ComponentView>,
    pub architecture: Option<Seq<char>>,
}

impl View for Collection {
    type V = CollectionView;

    open spec fn view(&self) -> CollectionView {
        CollectionView {
            version: self.version@,
            origin: option_view(self.origin),
            components: views(self.components@),
            architecture: option_view(self.architecture),
        }
    }
}

/// The components `components` after child `node` of a collection element is
/// read: a `component` element joins them, and every other node is passed
/// over.
pub open spec fn collection_step(components: Seq<ComponentView>, node: Node) -> Result<
    Seq<ComponentView>,
    ParseErrorView,
> {
    match node {
        Node::Element(c) => if c.name@ == "component"@ {
            match Component::spec_try_from(c) {
                Ok(component) => Ok(components.push(component)),
                Err(err) => Err(err),
            }
        } else {
            Ok(components)
        },
        _ => Ok(components),
    }
}

/// The components of `children`, read in order. The first component that
/// fails decides the error: no component is returned then.
pub open spec fn components_in(children: Seq<Node>) -> Result<Seq<ComponentView>, ParseErrorView>
    decreases children.len(),
{
    if children.len() == 0 {
        Ok(Seq::empty())
    } else {
        match components_in(children.drop_last()) {
            Ok(before) => collection_step(before, children.last()),
            Err(err) => Err(err),
        }
    }
}

/// Where a prefix of the children fails, all of them fail in the same way.
pub proof fn lemma_components_fail(children: Seq<Node>, k: int)
    requires
        0 <= k <= children.len(),
        components_in(children.take(k)) is Err,
    ensures
        components_in(children) == components_in(children.take(k)),
    decreases children.len() - k,
{
    if k == children.len() {
        assert(children.take(k) =~= children);
    } else {
        assert(children.take(k + 1).drop_last() =~= children.take(k));
        lemma_components_fail(children, k + 1);
    }
}

/// A child of a collection element that is no `component` element is passed
/// over: it is no error, and it adds no component.
pub proof fn lemma_other_child_is_passed_over(components: Seq<ComponentView>, node: Node)
    requires
        match node {
            Node::Element(c) => c.name@ != "component"@,
            _ => true,
        },
    ensures
        collection_step(components, node) == Ok::<Seq<ComponentView>, ParseErrorView>(components),
{
}

/// Whether `node` is a `component` element that fails to convert.
pub open spec fn is_failing_component(node: Node) -> bool {
    match node {
        Node::Element(c) => c.name@ == "component"@ && Component::spec_try_from(c) is Err,
        _ => false,
    }
}

/// The error of a `component` element that fails to convert.
pub open spec fn component_error(node: Node) -> ParseErrorView
    recommends
        is_failing_component(node),
{
    match node {
        Node::Element(c) => Component::spec_try_from(c)->Err_0,
        _ => arbitrary(),
    }
}

/// Children whose first failing component stands at place `k` give the
/// error of that component, whatever stands before and after it.
pub proof fn lemma_first_failure_decides(children: Seq<Node>, k: int)
    requires
        0 <= k < children.len(),
        is_failing_component(children[k]),
        forall|i: int| 0 <= i < k ==> !is_failing_component(#[trigger] children[i]),
    ensures
        components_in(children) == Err::<Seq<ComponentView>, ParseErrorView>(
            component_error(children[k]),
        ),
{
    lemma_prefix_without_failure(children, k);
    assert(children.take(k + 1).drop_last() =~= children.take(k));
    assert(children.take(k + 1).last() == children[k]);
    lemma_components_fail(children, k + 1);
}

/// A collection element with a version whose first failing component stands
/// at place `k` among its children fails with the error of that component: the
/// components before it are not returned.
pub proof fn lemma_collection_fails_fast(e: Element, k: int)
    requires
        e.spec_attribute("version"@) is Some,
        0 <= k < e.children@.len(),
        is_failing_component(e.children@[k]),
        forall|i: int| 0 <= i < k ==> !is_failing_component(#[trigger] e.children@[i]),
    ensures
        Collection::spec_try_from(e) == Err::<CollectionView, ParseErrorView>(
            component_error(e.children@[k]),
        ),
{
    lemma_first_failure_decides(e.children@, k);
}

/// Children of which none is a failing component give their components.
pub proof fn lemma_prefix_without_failure(children: Seq<Node>, k: int)
    requires
        0 <= k <= children.len(),
        forall|i: int| 0 <= i < k ==> !is_failing_component(#[trigger] children[i]),
    ensures
        components_in(children.take(k)) is Ok,
    decreases k,
{
    if k > 0 {
        lemma_prefix_without_failure(children, k - 1);
        assert(children.take(k).drop_last() =~= children.take(k - 1));
        assert(children.take(k).last() == children[k - 1]);
        assert(!is_failing_component(children[k - 1]));
    }
}

/// The components among `components` whose identifier is `id`, or `id`
/// followed by `.desktop`, in their order.
pub open spec fn found_by_id(components: Seq<Component>, id: Seq<char>) -> Seq<Component>
    decreases components.len(),
{
    if components.len() == 0 {
        Seq::empty()
    } else {
        let before = found_by_id(components.drop_last(), id);
        if components.last().id@ == id || components.last().id@ == id + ".desktop"@ {
            before.push(components.last())
        } else {
            before
        }
    }
}

/// What the references of `refs` point to.
pub open spec fn referents(refs: Seq<&Component>) -> Seq<Component> {
    Seq::new(refs.len(), |i: int| *refs[i])
}

impl Collection {
    /// The origin of a collection element: its `origin` attribute, unless
    /// it is empty.
    pub open spec fn spec_origin(e: Element) -> Option<Seq<char>> {
        match e.spec_attribute("origin"@) {
            Some(o) => if o.len() == 0 {
                None
            } else {
                Some(o)
            },
            None => None,
        }
    }

    /// The collection that a `components` element denotes. Its `version`
    /// attribute is required; `architecture` and `origin` are taken as they
    /// stand, an empty origin as none. Its `component` children are the
    /// components, in the order of the document. Where a component fails,
    /// the collection fails with the error of the first that does.
    pub open spec fn spec_try_from(e: Element) -> Result<CollectionView, ParseErrorView> {
        match e.spec_attribute("version"@) {
            None => Err(ParseErrorView::MissingAttribute("version"@, "collection"@)),
            Some(version) => match components_in(e.children@) {
                Err(err) => Err(err),
                Ok(components) => Ok(
                    CollectionView {
                        version,
                        origin: Collection::spec_origin(e),
                        components,
                        architecture: e.spec_attribute("architecture"@),
                    },
                ),
            },
        }
    }

    /// Find the components that corresponds to a specific `AppId`. Some
    /// components carry the identifier with `.desktop` behind it: they are
    /// found too.
    pub fn find_by_id(&self, id: AppId) -> (r: Vec<&Component>)
        ensures
            referents(r@) == found_by_id(self.components@, id@),
    {
        let alternative = id.0.clone().concat(".desktop");
        let mut found: Vec<&Component> = Vec::new();
        let mut i: usize = 0;
        proof {
            assert(referents(found@) =~= Seq::<Component>::empty());
        }
        while i < self.components.len()
            invariant
                i <= self.components@.len(),
                alternative@ == id@ + ".desktop"@,
                referents(found@) == found_by_id(self.components@.take(i as int), id@),
            decreases self.components@.len() - i,
        {
            proof {
                assert(self.components@.take(i + 1).drop_last() =~= self.components@.take(
                    i as int,
                ));
                assert(self.components@.take(i + 1).last() == self.components@[i as int]);
            }
            let c = &self.components[i];
            if str_eq(c.id.0.as_str(), id.0.as_str()) || str_eq(
                c.id.0.as_str(),
                alternative.as_str(),
            ) {
                let ghost before = found@;
                found.push(c);
                proof {
                    assert(referents(found@) =~= referents(before).push(*c));
                }
            }
            i += 1;
        }
        proof {
            assert(self.components@.take(i as int) =~= self.components@);
        }
        found
    }
}

impl Collection {
    /// Reads the collection that `e` denotes: see [`Collection::spec_try_from`].
    pub fn try_from(e: &Element) -> (r: Result<Self, ParseError>)
        ensures
            result_view(r) == Collection::spec_try_from(*e),
    {
        let version = match e.attribute("version") {
            Some(v) => v.clone(),
            None => { return Err(ParseError::missing_attribute("version", "collection")); },
        };
        let architecture = match e.attribute("architecture") {
            Some(a) => Some(a.clone()),
            None => None,
        };
        let origin = match e.attribute("origin") {
            Some(o) => if o.as_str().is_empty() {
                None
            } else {
                Some(o.clone())
            },
            None => None,
        };
        let mut components: Vec<Component> = Vec::new();
        let mut i: usize = 0;
        proof {
            assert(views(components@) =~= Seq::<ComponentView>::empty());
        }
        while i < e.children.len()
            invariant
                i <= e.children@.len(),
                Collection::spec_try_from(*e) == match components_in(e.children@) {
                    Err(err) => Err(err),
                    Ok(components) => Ok(
                        CollectionView {
                            version: version@,
                            origin: option_view(origin),
                            components,
                            architecture: option_view(architecture),
                        },
                    ),
                },
                components_in(e.children@.take(i as int)) == Ok::<
                    Seq<ComponentView>,
                    ParseErrorView,
                >(views(components@)),
            decreases e.children@.len() - i,
        {
            proof {
                assert(e.children@.take(i + 1).drop_last() =~= e.children@.take(i as int));
                assert(e.children@.take(i + 1).last() == e.children@[i as int]);
            }
            match &e.children[i] {
                Node::Element(c) => {
                    if str_eq(c.name.as_str(), "component") {
                        match Component::try_from(c) {
                            Ok(component) => {
                                proof {
                                    lemma_views_push(components@, component);
                                }
                                components.push(component);
                            },
                            Err(err) => {
                                proof {
                                    lemma_components_fail(e.children@, i + 1);
                                }
                                return Err(err);
                            },
                        }
                    }
                },
                _ => {},
            }
            i += 1;
        }
        proof {
            assert(e.children@.take(i as int) =~= e.children@);
        }
        Ok(Collection { version, origin, components, architecture })
    }
}

impl Collection {
    /// The collection of a document that was read: the collection that its root
    /// element denotes, or the error of the parser where the document could
    /// not be read.
    pub fn from_document(document: Result<Element, ParseError>) -> (r: Result<
        Collection,
        ParseError,
    >)
        ensures
            match document {
                Ok(e) => result_view(r) == Collection::spec_try_from(e),
                Err(err) => r == Err::<Collection, ParseError>(err),
            },
    {
        match document {
            Ok(e) => Collection::try_from(&e),
            Err(err) => Err(err),
        }
    }

    /// The collection that an element with model `m` denotes.
    pub open spec fn spec_of_model(m: ElementModel) -> Result<CollectionView, ParseErrorView> {
        Collection::spec_try_from(choose|e: Element| e.model() == m)
    }

    /// The collection of a document, where `read` is what the document
    /// denotes: the collection of its root element, or the error of the parser.
    pub open spec fn spec_of_document(read: Result<ElementModel, Seq<char>>) -> Result<
        CollectionView,
        ParseErrorView,
    > {
        match read {
            Ok(m) => Collection::spec_of_model(m),
            Err(msg) => Err(ParseErrorView::XmlParserError(msg)),
        }
    }

    /// Create a new `Collection` from the bytes of an XML document: the
    /// collection that the root element of the document denotes.
    pub fn from_bytes(bytes: &[u8]) -> (r: Result<Collection, ParseError>)
        ensures
            result_view(r) == Collection::spec_of_document(xml_document(bytes@)),
    {
        let document = Element::parse(bytes);
        proof {
            if document is Ok {
                let e = document->Ok_0;
                let m = e.model();
                lemma_collection_model_decides(e, choose|x: Element| x.model() == m);
            }
        }
        Collection::from_document(document)
    }

    /// Create a new `Collection` from gzipped bytes: the collection that the root
    /// element of the document denotes.
    pub fn from_gzipped_bytes(bytes: &[u8]) -> (r: Result<Collection, ParseError>)
        ensures
            result_view(r) == Collection::spec_of_document(gzipped_xml_document(bytes@)),
    {
        let document = Element::parse_gzipped(bytes);
        proof {
            if document is Ok {
                let e = document->Ok_0;
                let m = e.model();
                lemma_collection_model_decides(e, choose|x: Element| x.model() == m);
            }
        }
        Collection::from_document(document)
    }
}

/// Nodes with the same model add the same component.
pub proof fn lemma_same_collection_step(components: Seq<ComponentView>, a: Node, b: Node)
    requires
        node_model(a) == node_model(b),
    ensures
        collection_step(components, a) == collection_step(components, b),
{
    lemma_same_node_model(a, b);
    match (a, b) {
        (Node::Element(x), Node::Element(y)) => {
            Component::lemma_model_decides(x, y);
        },
        _ => {},
    }
}

/// Children with the same models hold the same components.
pub proof fn lemma_same_components_in(a: Seq<Node>, b: Seq<Node>)
    requires
        nodes_model(a) == nodes_model(b),
    ensures
        components_in(a) == components_in(b),
    decreases a.len(),
{
    lemma_same_models_split(a, b);
    if a.len() > 0 {
        lemma_same_components_in(a.drop_last(), b.drop_last());
        match components_in(a.drop_last()) {
            Ok(before) => {
                lemma_same_collection_step(before, a.last(), b.last());
            },
            Err(_) => {},
        }
    }
}

/// Elements with the same model denote the same collection: what a
/// collection element denotes does not depend on the order of its attributes,
/// nor on that of the attributes of any element in it.
pub proof fn lemma_collection_model_decides(a: Element, b: Element)
    requires
        a.model() == b.model(),
    ensures
        Collection::spec_try_from(a) == Collection::spec_try_from(b),
{
    lemma_same_attribute(a, b, "version"@);
    lemma_same_attribute(a, b, "origin"@);
    lemma_same_attribute(a, b, "architecture"@);
    lemma_same_components_in(a.children@, b.children@);
}

} // verus!
