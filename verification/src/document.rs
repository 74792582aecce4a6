//! Documents as bytes. The `xmltree` crate reads them, and `flate2` unpacks
//! those that are compressed; the tree that `xmltree` hands out is converted
//! into the library's [`Element`].
use vstd::prelude::*;
use xmltree::Element as Tree;
use xmltree::XMLNode;
use crate::element::{Element, ElementModel, Node};
use crate::error::{ParseError, ParseErrorView};

verus! {

#[verifier::external_type_specification]
#[verifier::external_body]
pub struct ExTree(Tree);

/// The root element of the XML document `bytes`, as `xmltree` reads it, or
/// the message of the error that it reports.
pub uninterp spec fn xml_document(bytes: Seq<u8>) -> Result<ElementModel, Seq<char>>;

/// The root element of the gzipped XML document `bytes`, as `xmltree` reads
/// what `flate2` unpacks, or the message of the error that `xmltree` reports.
pub uninterp spec fn gzipped_xml_document(bytes: Seq<u8>) -> Result<ElementModel, Seq<char>>;

/// The element of the library for a tree of `xmltree`: its name, its
/// attributes and its children, node for node. Prefixes and namespaces are
/// left out. The attributes stand in the order in which the map of the tree
/// hands them out, which is not fixed.
#[verifier::external_body]
fn element_of(tree: &Tree) -> (r: Element) {
    let attributes = tree.attributes.iter().map(|(k, v)| (k.clone(), v.clone())).collect();
    let children = tree.children.iter().map(|node| match node {
        XMLNode::Element(c) => Node::Element(element_of(c)),
        XMLNode::Comment(t) => Node::Comment(t.clone()),
        XMLNode::CData(t) => Node::CData(t.clone()),
        XMLNode::Text(t) => Node::Text(t.clone()),
        XMLNode::ProcessingInstruction(p, d) => Node::ProcessingInstruction(p.clone(), d.clone()),
    }).collect();
    Element { name: tree.name.clone(), attributes, children }
}

/// `xmltree::Element::parse` of a byte slice: the root element of the
/// document, or the message of the error that the parser reports. What the
/// element holds depends on the bytes alone, and is named by
/// [`xml_document`]; the order of its attributes is not fixed.
#[verifier::external_body]
fn parse_document(bytes: &[u8]) -> (r: Result<Element, String>)
    ensures
        match r {
            Ok(e) => xml_document(bytes@) == Ok::<ElementModel, Seq<char>>(e.model()),
            Err(m) => xml_document(bytes@) == Err::<ElementModel, Seq<char>>(m@),
        },
{
    Tree::parse(bytes).map(|tree| element_of(&tree)).map_err(|e| e.to_string())
}

/// `xmltree::Element::parse` of what `flate2::read::GzDecoder` unpacks from
/// a byte slice: the root element of the document, or the message of the
/// error that the parser reports, also where the bytes cannot be unpacked.
/// What the element holds depends on the bytes alone, and is named by
/// [`gzipped_xml_document`]; the order of its attributes is not fixed.
#[verifier::external_body]
fn parse_gzipped_document(bytes: &[u8]) -> (r: Result<Element, String>)
    ensures
        match r {
            Ok(e) => gzipped_xml_document(bytes@) == Ok::<ElementModel, Seq<char>>(e.model()),
            Err(m) => gzipped_xml_document(bytes@) == Err::<ElementModel, Seq<char>>(m@),
        },
{
    Tree::parse(flate2::read::GzDecoder::new(bytes)).map(|tree| element_of(&tree)).map_err(
        |e| e.to_string(),
    )
}

/// What a document that was read gives: its root element, or the error that
/// holds the message of the parser.
pub fn document(parsed: Result<Element, String>) -> (r: Result<Element, ParseError>)
    ensures
        match parsed {
            Ok(e) => r == Ok::<Element, ParseError>(e),
            Err(m) => r is Err && r->Err_0@ == ParseErrorView::XmlParserError(m@),
        },
{
    match parsed {
        Ok(e) => Ok(e),
        Err(m) => Err(ParseError::XmlParserError(m)),
    }
}

/// Whether `r` is what reading a document gave, where `read` is what the
/// document denotes: the root element, or the error of the parser.
pub open spec fn is_document(
    r: Result<Element, ParseError>,
    read: Result<ElementModel, Seq<char>>,
) -> bool {
    match read {
        Ok(m) => r is Ok && r->Ok_0.model() == m,
        Err(msg) => r is Err && r->Err_0@ == ParseErrorView::XmlParserError(msg),
    }
}

impl Element {
    /// Parses a document and returns its root element. The only error is
    /// that of the parser.
    pub fn parse(bytes: &[u8]) -> (r: Result<Element, ParseError>)
        ensures
            is_document(r, xml_document(bytes@)),
    {
        document(parse_document(bytes))
    }

    /// Parses a gzipped document and returns its root element. The only
    /// error is that of the parser, which reports a stream that cannot be
    /// unpacked too.
    pub fn parse_gzipped(bytes: &[u8]) -> (r: Result<Element, ParseError>)
        ensures
            is_document(r, gzipped_xml_document(bytes@)),
    {
        document(parse_gzipped_document(bytes))
    }
}

} // verus!
