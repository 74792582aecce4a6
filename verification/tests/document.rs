use appstream::document::document;
use appstream::{Collection, Component, Element, Node, ParseError};
use flate2::write::GzEncoder;
use flate2::Compression;
use std::io::Write;

fn gzip(bytes: &[u8]) -> Vec<u8> {
    let mut encoder = GzEncoder::new(Vec::new(), Compression::default());
    encoder.write_all(bytes).unwrap();
    encoder.finish().unwrap()
}

const COMPONENT: &str = "<?xml version='1.0'?>
<!-- before the root -->
<component type='font'>
  <id>org.example.Font</id>
  <name>Example <![CDATA[<Font>]]></name>
  <!-- inside -->
</component>";

#[test]
fn a_document_is_read_into_its_root_element() {
    let e = Element::parse(COMPONENT.as_bytes()).unwrap();
    assert_eq!(e.name, "component");
    assert_eq!(e.attributes, vec![("type".to_string(), "font".to_string())]);
    assert_eq!(e.children.len(), 3);
    assert_eq!(
        e.children[0],
        Node::Element(Element::new("id").with_text("org.example.Font"))
    );
    assert_eq!(
        e.get_child("name").unwrap().get_text(),
        Some("Example <Font>".to_string())
    );
    assert_eq!(e.children[2], Node::Comment(" inside ".to_string()));
}

#[test]
fn attributes_lose_their_prefix_and_keep_their_value() {
    let e = Element::parse("<name xml:lang='pt_BR' y='z' a='&lt;b&gt;'>n</name>".as_bytes());
    let e = match e {
        Ok(e) => e,
        Err(error) => panic!("{}", error.to_string()),
    };
    assert_eq!(e.attributes.len(), 3);
    assert_eq!(e.attribute("lang"), Some(&"pt_BR".to_string()));
    assert_eq!(e.attribute("a"), Some(&"<b>".to_string()));
    assert_eq!(e.attribute("xml:lang"), None);
}

#[test]
fn what_is_no_document_gives_the_error_of_the_parser() {
    for text in [
        "",
        "plain text",
        "<a><b></a>",
        "<a>",
        "<!-- only a comment -->",
        "<?xml version='1.0'?>",
        "<?xml version='1.0'?>\n<?pi data?>\n",
        "<a x:y='z'/>",
    ] {
        assert!(
            matches!(
                Element::parse(text.as_bytes()),
                Err(ParseError::XmlParserError(_))
            ),
            "{:?}",
            text
        );
        assert!(matches!(
            Component::from_bytes(text.as_bytes()),
            Err(ParseError::XmlParserError(_))
        ));
        assert!(matches!(
            Collection::from_bytes(text.as_bytes()),
            Err(ParseError::XmlParserError(_))
        ));
    }
    match Element::parse("<a><b></a>".as_bytes()) {
        Err(error) => assert!(error
            .to_string()
            .starts_with("XML parser error: Malformed XML")),
        Ok(e) => panic!("read {:?}", e),
    }
}

#[test]
fn a_gzipped_document_is_read_like_a_plain_one() {
    let packed = gzip(COMPONENT.as_bytes());
    assert_ne!(packed.as_slice(), COMPONENT.as_bytes());
    assert_eq!(
        Element::parse_gzipped(&packed),
        Element::parse(COMPONENT.as_bytes())
    );
    assert_eq!(
        Component::from_gzipped_bytes(&packed),
        Component::from_bytes(COMPONENT.as_bytes())
    );
    let component = Component::from_gzipped_bytes(&packed).unwrap();
    assert_eq!(component.id.to_string(), "org.example.Font");
    assert_eq!(
        component.name.get_default(),
        Some(&"Example <Font>".to_string())
    );
}

#[test]
fn bytes_that_are_not_gzipped_give_the_error_of_the_parser() {
    assert!(matches!(
        Element::parse_gzipped(COMPONENT.as_bytes()),
        Err(ParseError::XmlParserError(_))
    ));
    assert!(matches!(
        Component::from_gzipped_bytes(COMPONENT.as_bytes()),
        Err(ParseError::XmlParserError(_))
    ));
    let mut cut = gzip(COMPONENT.as_bytes());
    cut.truncate(cut.len() / 2);
    assert!(matches!(
        Collection::from_gzipped_bytes(&cut),
        Err(ParseError::XmlParserError(_))
    ));
    assert!(matches!(
        Element::parse_gzipped(&[]),
        Err(ParseError::XmlParserError(_))
    ));
}

#[test]
fn a_document_that_was_read_is_converted() {
    let element = Element::new("component")
        .with_child(Element::new("id").with_text("x"))
        .with_child(Element::new("name").with_text("n"));
    assert_eq!(
        Component::from_document(Ok(element.clone())),
        Component::try_from(&element)
    );
    assert_eq!(
        Component::from_document(Err(ParseError::XmlParserError("no root".to_string()))),
        Err(ParseError::XmlParserError("no root".to_string()))
    );
    assert_eq!(
        Component::from_document(Ok(Element::new("component"))),
        Err(ParseError::missing_tag("id"))
    );
    let collection = Element::new("components")
        .with_attribute("version", "0.8")
        .with_child(element);
    assert_eq!(
        Collection::from_document(Ok(collection.clone())),
        Collection::try_from(&collection)
    );
    assert_eq!(
        Collection::from_document(Ok(collection))
            .unwrap()
            .components
            .len(),
        1
    );
    assert_eq!(
        Collection::from_document(Err(ParseError::IOError("gone".to_string()))),
        Err(ParseError::IOError("gone".to_string()))
    );
}

#[test]
fn a_collection_is_read_from_its_bytes() {
    let text = "<components version='0.14' origin='test'><component><id>a</id><name>A</name></component></components>";
    let collection = Collection::from_bytes(text.as_bytes()).unwrap();
    assert_eq!(collection.version, "0.14");
    assert_eq!(collection.components.len(), 1);
    assert_eq!(
        Collection::from_gzipped_bytes(&gzip(text.as_bytes())),
        Ok(collection)
    );
}

#[test]
fn what_the_parser_hands_out_becomes_an_element_or_an_error() {
    let element = Element::new("a").with_attribute("b", "c").with_text("d");
    assert_eq!(document(Ok(element.clone())), Ok(element));
    assert_eq!(
        document(Err("Malformed XML".to_string())),
        Err(ParseError::XmlParserError("Malformed XML".to_string()))
    );
}

#[test]
fn the_order_of_attributes_does_not_change_what_an_element_denotes() {
    let one = Element::new("component")
        .with_attribute("type", "font")
        .with_attribute("x", "y");
    let other = Element::new("component")
        .with_attribute("x", "y")
        .with_attribute("type", "font");
    let children = |e: Element| {
        e.with_child(Element::new("id").with_text("org.example.Font"))
            .with_child(
                Element::new("name")
                    .with_attribute("a", "b")
                    .with_attribute("lang", "de")
                    .with_text("Schrift"),
            )
            .with_child(
                Element::new("icon")
                    .with_attribute("height", "64")
                    .with_attribute("type", "cached")
                    .with_attribute("width", "48")
                    .with_text("font.png"),
            )
    };
    let reordered = |e: Element| {
        e.with_child(Element::new("id").with_text("org.example.Font"))
            .with_child(
                Element::new("name")
                    .with_attribute("lang", "de")
                    .with_attribute("a", "b")
                    .with_text("Schrift"),
            )
            .with_child(
                Element::new("icon")
                    .with_attribute("width", "48")
                    .with_attribute("type", "cached")
                    .with_attribute("height", "64")
                    .with_text("font.png"),
            )
    };
    let first = Component::try_from(&children(one)).unwrap();
    let second = Component::try_from(&reordered(other)).unwrap();
    assert_eq!(first, second);
    assert_eq!(first.icons.len(), 1);
}
