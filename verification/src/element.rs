//! The generic element tree that the conversions read.
use vstd::prelude::*;
use vstd::string::StringExecFns;
use crate::error::{ParseError, ParseErrorView};
use crate::text::str_eq;
use crate::views::result_view;

verus! {

/// One child of an element.
#[derive(Debug, PartialEq, Eq)]
pub enum Node {
    /// A nested element.
    Element(Element),
    /// A comment.
    Comment(String),
    /// A character data section.
    CData(String),
    /// A run of text.
    Text(String),
    /// A processing instruction: its name and its data.
    ProcessingInstruction(String, Option<String>),
}

/// An element: its tag name, its attributes in order, and its children in
/// order.
#[derive(Debug, PartialEq, Eq)]
pub struct Element {
    /// The tag name, without a namespace prefix.
    pub name: String,
    /// The attributes as pairs of name and value. The first pair with a given
    /// name is the one that counts.
    pub attributes: Vec<(String, String)>,
    /// The children, elements and text interleaved.
    pub children: Vec<Node>,
}

/// The value of the first attribute called `name`.
pub open spec fn attribute_in(attributes: Seq<(String, String)>, name: Seq<char>) -> Option<
    Seq<char>,
>
    decreases attributes.len(),
{
    if attributes.len() == 0 {
        None
    } else if attributes[0].0@ == name {
        Some(attributes[0].1@)
    } else {
        attribute_in(attributes.drop_first(), name)
    }
}

/// The text and character data among `children`, joined in order; `None` where
/// there is neither.
pub open spec fn text_in(children: Seq<Node>) -> Option<Seq<char>>
    decreases children.len(),
{
    if children.len() == 0 {
        None
    } else {
        let before = text_in(children.drop_last());
        match children.last() {
            Node::Text(t) | Node::CData(t) => Some(
                match before {
                    Some(b) => b + t@,
                    None => t@,
                },
            ),
            _ => before,
        }
    }
}

/// The first element among `children` whose tag is `name`.
pub open spec fn child_in(children: Seq<Node>, name: Seq<char>) -> Option<Element>
    decreases children.len(),
{
    if children.len() == 0 {
        None
    } else {
        match children[0] {
            Node::Element(e) if e.name@ == name => Some(e),
            _ => child_in(children.drop_first(), name),
        }
    }
}

/// The content of `children` as markup: text as it stands, a nested element as
/// its opening tag without attributes, its own content and its closing tag;
/// nothing for other nodes.
pub open spec fn markup_in(children: Seq<Node>) -> Seq<char>
    decreases children, 0nat,
{
    if children.len() == 0 {
        Seq::empty()
    } else {
        markup_in(children.drop_last()) + node_markup(children.last())
    }
}

/// One node as markup: see [`markup_in`].
pub open spec fn node_markup(node: Node) -> Seq<char>
    decreases node, 1nat,
{
    match node {
        Node::Element(e) => "<"@ + e.name@ + ">"@ + markup_in(e.children@) + "</"@ + e.name@ + ">"@,
        Node::Text(t) => t@,
        _ => Seq::empty(),
    }
}

/// An element as a document gives it: its tag name, what each of its
/// attributes holds, and its children in order. The order of the attributes
/// is no part of it.
pub struct ElementModel {
    pub name: Seq<char>,
    pub attributes: Map<Seq<char>, Seq<char>>,
    pub children: Seq<NodeModel>,
}

/// A node as a document gives it.
pub enum NodeModel {
    Element(ElementModel),
    Comment(Seq<char>),
    CData(Seq<char>),
    Text(Seq<char>),
    ProcessingInstruction(Seq<char>, Option<Seq<char>>),
}

/// The map from the names of `attributes` to their values.
pub open spec fn attributes_model(attributes: Seq<(String, String)>) -> Map<Seq<char>, Seq<char>> {
    Map::new(
        |name: Seq<char>| attribute_in(attributes, name) is Some,
        |name: Seq<char>| attribute_in(attributes, name)->Some_0,
    )
}

/// The models of `nodes`, in order.
pub open spec fn nodes_model(nodes: Seq<Node>) -> Seq<NodeModel>
    decreases nodes, 0nat,
{
    if nodes.len() == 0 {
        Seq::empty()
    } else {
        nodes_model(nodes.drop_last()).push(node_model(nodes.last()))
    }
}

/// The model of `node`.
pub open spec fn node_model(node: Node) -> NodeModel
    decreases node, 1nat,
{
    match node {
        Node::Element(e) => NodeModel::Element(
            ElementModel {
                name: e.name@,
                attributes: attributes_model(e.attributes@),
                children: nodes_model(e.children@),
            },
        ),
        Node::Comment(t) => NodeModel::Comment(t@),
        Node::CData(t) => NodeModel::CData(t@),
        Node::Text(t) => NodeModel::Text(t@),
        Node::ProcessingInstruction(name, data) => NodeModel::ProcessingInstruction(
            name@,
            match data {
                Some(d) => Some(d@),
                None => None,
            },
        ),
    }
}

impl Node {
    /// The element that this node is, if it is one.
    pub open spec fn spec_as_element(&self) -> Option<Element> {
        match *self {
            Node::Element(e) => Some(e),
            _ => None,
        }
    }

    /// The element that this node is, if it is one.
    pub fn as_element(&self) -> (r: Option<&Element>)
        ensures
            match r {
                Some(e) => self.spec_as_element() == Some(*e),
                None => self.spec_as_element() is None,
            },
    {
        match self {
            Node::Element(e) => Some(e),
            _ => None,
        }
    }
}

impl Element {
    /// This element as a document gives it: see [`ElementModel`].
    pub open spec fn model(&self) -> ElementModel {
        ElementModel {
            name: self.name@,
            attributes: attributes_model(self.attributes@),
            children: nodes_model(self.children@),
        }
    }

    /// The value of the attribute called `name`.
    pub open spec fn spec_attribute(&self, name: Seq<char>) -> Option<Seq<char>> {
        attribute_in(self.attributes@, name)
    }

    /// The text of this element: see [`text_in`].
    pub open spec fn spec_text(&self) -> Option<Seq<char>> {
        text_in(self.children@)
    }

    /// The first child element whose tag is `name`.
    pub open spec fn spec_child(&self, name: Seq<char>) -> Option<Element> {
        child_in(self.children@, name)
    }

    /// The text of this element, or the error that tag `tag` has no value.
    pub open spec fn spec_required_text(&self, tag: Seq<char>) -> Result<
        Seq<char>,
        ParseErrorView,
    > {
        match self.spec_text() {
            Some(t) => Ok(t),
            None => Err(ParseErrorView::MissingValue(tag)),
        }
    }

    /// The text of this element, empty where it has none.
    pub open spec fn spec_text_or_empty(&self) -> Seq<char> {
        match self.spec_text() {
            Some(t) => t,
            None => Seq::empty(),
        }
    }

    /// The value of attribute `name`, or the error that tag `tag` lacks it.
    pub open spec fn spec_required_attribute(&self, name: Seq<char>, tag: Seq<char>) -> Result<
        Seq<char>,
        ParseErrorView,
    > {
        match self.spec_attribute(name) {
            Some(v) => Ok(v),
            None => Err(ParseErrorView::MissingAttribute(name, tag)),
        }
    }

    /// An element with the given tag, without attributes or children.
    pub fn new(name: &str) -> (r: Element)
        ensures
            r.name@ == name@,
            r.attributes@.len() == 0,
            r.children@.len() == 0,
    {
        Element { name: name.to_owned(), attributes: Vec::new(), children: Vec::new() }
    }

    /// This element with one more attribute after those it has.
    pub fn with_attribute(self, name: &str, value: &str) -> (r: Element)
        ensures
            r.name == self.name,
            r.children == self.children,
            r.attributes@.len() == self.attributes@.len() + 1,
            r.attributes@.take(self.attributes@.len() as int) == self.attributes@,
            r.attributes@.last().0@ == name@,
            r.attributes@.last().1@ == value@,
    {
        let mut e = self;
        e.attributes.push((name.to_owned(), value.to_owned()));
        assert(e.attributes@.take(self.attributes@.len() as int) =~= self.attributes@);
        e
    }

    /// This element with one more node after its children.
    pub fn with_node(self, node: Node) -> (r: Element)
        ensures
            r.name == self.name,
            r.attributes == self.attributes,
            r.children@ == self.children@.push(node),
    {
        let mut e = self;
        e.children.push(node);
        e
    }

    /// This element with one more child element after its children.
    pub fn with_child(self, child: Element) -> (r: Element)
        ensures
            r.name == self.name,
            r.attributes == self.attributes,
            r.children@ == self.children@.push(Node::Element(child)),
    {
        self.with_node(Node::Element(child))
    }

    /// This element with a run of text after its children.
    pub fn with_text(self, text: &str) -> (r: Element)
        ensures
            r.name == self.name,
            r.attributes == self.attributes,
            r.children@.len() == self.children@.len() + 1,
            r.children@.drop_last() == self.children@,
            r.children@.last() matches Node::Text(t) && t@ == text@,
    {
        let r = self.with_node(Node::Text(text.to_owned()));
        assert(r.children@.drop_last() =~= self.children@);
        r
    }

    /// The value of the attribute called `name`.
    pub fn attribute(&self, name: &str) -> (r: Option<&String>)
        ensures
            match r {
                Some(v) => self.spec_attribute(name@) == Some(v@),
                None => self.spec_attribute(name@) is None,
            },
    {
        let mut i: usize = 0;
        assert(self.attributes@.skip(0) =~= self.attributes@);
        while i < self.attributes.len()
            invariant
                i <= self.attributes@.len(),
                attribute_in(self.attributes@, name@) == attribute_in(
                    self.attributes@.skip(i as int),
                    name@,
                ),
            decreases self.attributes@.len() - i,
        {
            let ghost rest = self.attributes@.skip(i as int);
            assert(rest[0] == self.attributes@[i as int]);
            assert(rest.drop_first() =~= self.attributes@.skip(i + 1));
            if str_eq(self.attributes[i].0.as_str(), name) {
                return Some(&self.attributes[i].1);
            }
            i += 1;
        }
        None
    }

    /// The text and character data among the children, joined in order;
    /// `None` where there is neither.
    pub fn get_text(&self) -> (r: Option<String>)
        ensures
            match r {
                Some(t) => self.spec_text() == Some(t@),
                None => self.spec_text() is None,
            },
    {
        let mut out: Option<String> = None;
        let mut i: usize = 0;
        while i < self.children.len()
            invariant
                i <= self.children@.len(),
                match out {
                    Some(t) => text_in(self.children@.take(i as int)) == Some(t@),
                    None => text_in(self.children@.take(i as int)) is None,
                },
            decreases self.children@.len() - i,
        {
            assert(self.children@.take(i + 1).drop_last() =~= self.children@.take(i as int));
            assert(self.children@.take(i + 1).last() == self.children@[i as int]);
            match &self.children[i] {
                Node::Text(t) | Node::CData(t) => {
                    out = match out {
                        Some(b) => Some(b.concat(t.as_str())),
                        None => Some(t.clone()),
                    };
                },
                _ => {},
            }
            i += 1;
        }
        assert(self.children@.take(i as int) =~= self.children@);
        out
    }

    /// The text of this element, or the error that tag `tag` has no value.
    pub fn required_text(&self, tag: &str) -> (r: Result<String, ParseError>)
        ensures
            result_view(r) == self.spec_required_text(tag@),
    {
        match self.get_text() {
            Some(t) => Ok(t),
            None => Err(ParseError::missing_value(tag)),
        }
    }

    /// The text of this element, empty where it has none.
    pub fn text_or_empty(&self) -> (r: String)
        ensures
            r@ == self.spec_text_or_empty(),
    {
        match self.get_text() {
            Some(t) => t,
            None => String::new(),
        }
    }

    /// The value of attribute `name`, or the error that tag `tag` lacks it.
    pub fn required_attribute(&self, name: &str, tag: &str) -> (r: Result<&String, ParseError>)
        ensures
            match r {
                Ok(v) => self.spec_required_attribute(name@, tag@) == Ok::<
                    Seq<char>,
                    ParseErrorView,
                >(v@),
                Err(e) => self.spec_required_attribute(name@, tag@) == Err::<
                    Seq<char>,
                    ParseErrorView,
                >(e@),
            },
    {
        match self.attribute(name) {
            Some(v) => Ok(v),
            None => Err(ParseError::missing_attribute(name, tag)),
        }
    }

    /// The content of this element as markup: see [`markup_in`].
    pub fn inner_markup(&self) -> (r: String)
        ensures
            r@ == markup_in(self.children@),
        decreases self,
    {
        let mut out = String::new();
        let mut i: usize = 0;
        while i < self.children.len()
            invariant
                i <= self.children@.len(),
                out@ == markup_in(self.children@.take(i as int)),
            decreases self.children@.len() - i,
        {
            assert(self.children@.take(i + 1).drop_last() =~= self.children@.take(i as int));
            assert(self.children@.take(i + 1).last() == self.children@[i as int]);
            let ghost before = out@;
            match &self.children[i] {
                Node::Element(c) => {
                    let inner = c.inner_markup();
                    out.append("<");
                    out.append(c.name.as_str());
                    out.append(">");
                    out.append(inner.as_str());
                    out.append("</");
                    out.append(c.name.as_str());
                    out.append(">");
                },
                Node::Text(t) => {
                    out.append(t.as_str());
                },
                _ => {},
            }
            assert(out@ =~= before + node_markup(self.children@[i as int]));
            i += 1;
        }
        assert(self.children@.take(i as int) =~= self.children@);
        out
    }

    /// The first child element whose tag is `name`.
    pub fn get_child(&self, name: &str) -> (r: Option<&Element>)
        ensures
            match r {
                Some(c) => self.spec_child(name@) == Some(*c),
                None => self.spec_child(name@) is None,
            },
    {
        let mut i: usize = 0;
        assert(self.children@.skip(0) =~= self.children@);
        while i < self.children.len()
            invariant
                i <= self.children@.len(),
                child_in(self.children@, name@) == child_in(self.children@.skip(i as int), name@),
            decreases self.children@.len() - i,
        {
            let ghost rest = self.children@.skip(i as int);
            assert(rest[0] == self.children@[i as int]);
            assert(rest.drop_first() =~= self.children@.skip(i + 1));
            match &self.children[i] {
                Node::Element(e) => {
                    if str_eq(e.name.as_str(), name) {
                        return Some(e);
                    }
                },
                _ => {},
            }
            i += 1;
        }
        None
    }
}

impl Clone for Node {
    /// A node with the same model: the same kind of node with the same text,
    /// and for an element the same name, attributes and children.
    fn clone(&self) -> (r: Self)
        ensures
            node_model(r) == node_model(*self),
        decreases *self,
    {
        match self {
            Node::Element(e) => Node::Element(e.clone()),
            Node::Comment(t) => Node::Comment(t.clone()),
            Node::CData(t) => Node::CData(t.clone()),
            Node::Text(t) => Node::Text(t.clone()),
            Node::ProcessingInstruction(name, data) => Node::ProcessingInstruction(
                name.clone(),
                match data {
                    Some(d) => Some(d.clone()),
                    None => None,
                },
            ),
        }
    }
}

impl Clone for Element {
    /// An element with the same model: the same name, the same attributes in
    /// the same order, and children with the same models in the same order.
    fn clone(&self) -> (r: Self)
        ensures
            r.model() == self.model(),
            r.name == self.name,
            r.attributes@ == self.attributes@,
            nodes_model(r.children@) == nodes_model(self.children@),
        decreases *self,
    {
        let mut attributes: Vec<(String, String)> = Vec::new();
        let mut i: usize = 0;
        while i < self.attributes.len()
            invariant
                i <= self.attributes@.len(),
                attributes@ =~= self.attributes@.take(i as int),
            decreases self.attributes@.len() - i,
        {
            attributes.push((self.attributes[i].0.clone(), self.attributes[i].1.clone()));
            i += 1;
        }
        let mut children: Vec<Node> = Vec::new();
        let mut j: usize = 0;
        while j < self.children.len()
            invariant
                j <= self.children@.len(),
                children@.len() == j,
                nodes_model(children@) == nodes_model(self.children@.take(j as int)),
            decreases self.children@.len() - j,
        {
            let child = self.children[j].clone();
            proof {
                assert(children@.push(child).drop_last() =~= children@);
                assert(self.children@.take(j + 1).drop_last() =~= self.children@.take(j as int));
                assert(self.children@.take(j + 1).last() == self.children@[j as int]);
            }
            children.push(child);
            j += 1;
        }
        let r = Element { name: self.name.clone(), attributes, children };
        proof {
            assert(r.attributes@ =~= self.attributes@);
            assert(self.children@.take(j as int) =~= self.children@);
        }
        r
    }
}

} // verus!
