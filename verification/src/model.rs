//! What an element denotes depends on its model alone: on its name, on what
//! its attributes hold and on its children, and not on the order in which its
//! attributes stand.
use vstd::prelude::*;
use crate::element::{
    attribute_in, attributes_model, child_in, markup_in, node_markup, node_model, nodes_model,
    text_in, Element, Node,
};

verus! {

/// The models of nodes are as many as the nodes, and each is the model of
/// its node.
pub proof fn lemma_nodes_model_index(nodes: Seq<Node>)
    ensures
        nodes_model(nodes).len() == nodes.len(),
        forall|i: int|
            0 <= i < nodes.len() ==> #[trigger] nodes_model(nodes)[i] == node_model(nodes[i]),
    decreases nodes.len(),
{
    if nodes.len() > 0 {
        lemma_nodes_model_index(nodes.drop_last());
        assert forall|i: int| 0 <= i < nodes.len() implies #[trigger] nodes_model(nodes)[i]
            == node_model(nodes[i]) by {
            if i < nodes.len() - 1 {
                assert(nodes.drop_last()[i] == nodes[i]);
            }
        }
    }
}

/// Nodes with the same models are equally many; their last nodes have the
/// same model, and so have the nodes before them.
pub proof fn lemma_same_models_split(a: Seq<Node>, b: Seq<Node>)
    requires
        nodes_model(a) == nodes_model(b),
    ensures
        a.len() == b.len(),
        a.len() > 0 ==> node_model(a.last()) == node_model(b.last()) && nodes_model(a.drop_last())
            == nodes_model(b.drop_last()),
        forall|i: int| 0 <= i < a.len() ==> node_model(#[trigger] a[i]) == node_model(b[i]),
{
    lemma_nodes_model_index(a);
    lemma_nodes_model_index(b);
    if a.len() > 0 {
        let ma = nodes_model(a.drop_last());
        let mb = nodes_model(b.drop_last());
        assert(ma.push(node_model(a.last())) == mb.push(node_model(b.last())));
        assert(ma =~= ma.push(node_model(a.last())).drop_last());
        assert(mb =~= mb.push(node_model(b.last())).drop_last());
    }
    assert forall|i: int| 0 <= i < a.len() implies node_model(#[trigger] a[i]) == node_model(
        b[i],
    ) by {
        assert(nodes_model(a)[i] == node_model(a[i]));
        assert(nodes_model(b)[i] == node_model(b[i]));
    }
}

/// Element nodes with the same model hold elements with the same model.
pub proof fn lemma_same_node_model(a: Node, b: Node)
    requires
        node_model(a) == node_model(b),
    ensures
        match (a, b) {
            (Node::Element(x), Node::Element(y)) => x.model() == y.model(),
            (Node::Comment(x), Node::Comment(y)) => x@ == y@,
            (Node::CData(x), Node::CData(y)) => x@ == y@,
            (Node::Text(x), Node::Text(y)) => x@ == y@,
            (Node::ProcessingInstruction(_, _), Node::ProcessingInstruction(_, _)) => true,
            _ => false,
        },
{
}

/// Elements with the same model have the same attributes.
pub proof fn lemma_same_attribute(a: Element, b: Element, name: Seq<char>)
    requires
        a.model() == b.model(),
    ensures
        a.spec_attribute(name) == b.spec_attribute(name),
{
    let ma = attributes_model(a.attributes@);
    let mb = attributes_model(b.attributes@);
    assert(ma == mb);
    assert(ma.dom().contains(name) == (attribute_in(a.attributes@, name) is Some));
    assert(mb.dom().contains(name) == (attribute_in(b.attributes@, name) is Some));
    if ma.dom().contains(name) {
        assert(ma[name] == attribute_in(a.attributes@, name)->Some_0);
        assert(mb[name] == attribute_in(b.attributes@, name)->Some_0);
    }
}

/// Nodes with the same models have the same text.
pub proof fn lemma_same_text_in(a: Seq<Node>, b: Seq<Node>)
    requires
        nodes_model(a) == nodes_model(b),
    ensures
        text_in(a) == text_in(b),
    decreases a.len(),
{
    lemma_same_models_split(a, b);
    if a.len() > 0 {
        lemma_same_text_in(a.drop_last(), b.drop_last());
        lemma_same_node_model(a.last(), b.last());
    }
}

/// Elements with the same model have the same text.
pub proof fn lemma_same_text(a: Element, b: Element)
    requires
        a.model() == b.model(),
    ensures
        a.spec_text() == b.spec_text(),
        a.spec_text_or_empty() == b.spec_text_or_empty(),
        forall|tag: Seq<char>| a.spec_required_text(tag) == b.spec_required_text(tag),
{
    lemma_same_text_in(a.children@, b.children@);
}

/// Nodes with the same models are the same markup.
pub proof fn lemma_same_markup_in(a: Seq<Node>, b: Seq<Node>)
    requires
        nodes_model(a) == nodes_model(b),
    ensures
        markup_in(a) == markup_in(b),
    decreases a, 0nat,
{
    lemma_same_models_split(a, b);
    if a.len() > 0 {
        lemma_same_markup_in(a.drop_last(), b.drop_last());
        lemma_same_node_markup(a.last(), b.last());
    }
}

/// Nodes with the same model are the same markup.
pub proof fn lemma_same_node_markup(a: Node, b: Node)
    requires
        node_model(a) == node_model(b),
    ensures
        node_markup(a) == node_markup(b),
    decreases a, 1nat,
{
    lemma_same_node_model(a, b);
    match (a, b) {
        (Node::Element(x), Node::Element(y)) => {
            lemma_same_markup_in(x.children@, y.children@);
        },
        _ => {},
    }
}

/// Nodes with the same models have, under each name, first children with
/// the same model, or none.
pub proof fn lemma_same_child_in(a: Seq<Node>, b: Seq<Node>, name: Seq<char>)
    requires
        nodes_model(a) == nodes_model(b),
    ensures
        match (child_in(a, name), child_in(b, name)) {
            (Some(x), Some(y)) => x.model() == y.model(),
            (None, None) => true,
            _ => false,
        },
    decreases a.len(),
{
    lemma_same_models_split(a, b);
    if a.len() > 0 {
        lemma_same_node_model(a[0], b[0]);
        let ra = a.drop_first();
        let rb = b.drop_first();
        assert(nodes_model(ra) == nodes_model(rb)) by {
            lemma_nodes_model_index(ra);
            lemma_nodes_model_index(rb);
            assert forall|i: int| 0 <= i < ra.len() implies nodes_model(ra)[i] == nodes_model(
                rb,
            )[i] by {
                assert(ra[i] == a[i + 1]);
                assert(rb[i] == b[i + 1]);
            }
            assert(nodes_model(ra) =~= nodes_model(rb));
        }
        lemma_same_child_in(ra, rb, name);
    }
}

} // verus!
