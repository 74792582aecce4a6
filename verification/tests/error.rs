use appstream::builders::CollectionBuilder;
use appstream::error::{
    collection_from_result, display_context, pipe_lines, snippet, CollectionParseError,
};
use appstream::{ContextParseError, Element, ParseError};

#[test]
fn errors_are_made_from_their_parts() {
    assert_eq!(
        ParseError::invalid_value("v", "a", "t"),
        ParseError::InvalidValue("v".to_string(), "a".to_string(), "t".to_string())
    );
    assert_eq!(
        ParseError::invalid_tag("t"),
        ParseError::InvalidTag("t".to_string())
    );
    assert_eq!(
        ParseError::missing_attribute("a", "t"),
        ParseError::MissingAttribute("a".to_string(), "t".to_string())
    );
    assert_eq!(
        ParseError::missing_tag("t"),
        ParseError::MissingTag("t".to_string())
    );
    assert_eq!(
        ParseError::missing_value("t"),
        ParseError::MissingValue("t".to_string())
    );
    assert_eq!(
        ParseError::other("t", "r"),
        ParseError::Other("t".to_string(), "r".to_string())
    );
}

#[test]
fn errors_have_their_messages() {
    assert_eq!(
        ParseError::XmlParserError("Malformed XML".to_string()).to_string(),
        "XML parser error: Malformed XML"
    );
    assert_eq!(
        ParseError::UrlParseError("empty host".to_string()).to_string(),
        "URL parser error: empty host"
    );
    assert_eq!(
        ParseError::IOError("not found".to_string()).to_string(),
        "Input/output error: not found "
    );
    assert_eq!(
        ParseError::invalid_tag("kudo").to_string(),
        "Invalid tag: kudo"
    );
    assert_eq!(
        ParseError::missing_tag("id").to_string(),
        "A required tag is missing: id"
    );
    assert_eq!(
        ParseError::missing_attribute("type", "bundle").to_string(),
        "Missing attribute type required by tag bundle"
    );
    assert_eq!(
        ParseError::missing_value("icon").to_string(),
        "The tag icon doesn't have a value"
    );
    assert_eq!(
        ParseError::invalid_value("rpm", "type", "bundle").to_string(),
        "Invalid value rpm passed to attribute type for tag bundle"
    );
    assert_eq!(
        ParseError::other("release", "too old").to_string(),
        "Error parsing release: too old"
    );
}

#[test]
fn a_short_context_is_shown_whole() {
    assert_eq!(snippet("<id>x</id>", 200), "<id>x</id>");
    assert_eq!(snippet("", 0), "");
    let exact = "x".repeat(200);
    assert_eq!(snippet(&exact, 200), exact);
    assert_eq!(display_context("<id>x</id>", false, true), "<id>x</id>");
    assert_eq!(display_context("<id>x</id>", false, false), " | <id>x</id>");
}

#[test]
fn a_long_context_is_cut_to_its_limit() {
    let long = "\u{e9}".repeat(201);
    assert_eq!(
        snippet(&long, 200),
        format!("{} \u{2026}", "\u{e9}".repeat(200))
    );
    assert_eq!(snippet("abcdef", 3), "abc \u{2026}");
    assert_eq!(snippet("abcdef", 0), " \u{2026}");
    let longer = "y".repeat(4001);
    assert_eq!(
        display_context(&longer, false, true),
        format!("{} \u{2026}", "y".repeat(200))
    );
    assert_eq!(
        display_context(&longer, true, true),
        format!("{} \u{2026}", "y".repeat(4000))
    );
    assert_eq!(
        display_context(&"y".repeat(4000), true, true),
        "y".repeat(4000)
    );
}

#[test]
fn every_line_of_a_context_gets_a_bar() {
    assert_eq!(pipe_lines("a\nb\n\nc"), "a\n | b\n | \n | c");
    assert_eq!(pipe_lines(""), "");
    assert_eq!(pipe_lines("\n"), "\n | ");
    assert_eq!(pipe_lines("no newline"), "no newline");
    assert_eq!(
        display_context("<a>\n  <b />\n</a>", false, false),
        " | <a>\n |   <b />\n | </a>"
    );
}

#[test]
fn an_error_with_context_shows_both() {
    let error = ContextParseError::new(ParseError::missing_tag("id"), Element::new("component"));
    assert_eq!(error.error(), &ParseError::missing_tag("id"));
    assert_eq!(error.context(), Some(&Element::new("component")));
    assert_eq!(
        error.to_string(Some("<component>\n</component>"), false),
        "A required tag is missing: id\n | <component>\n | </component>"
    );
    assert_eq!(
        error.to_string(None, false),
        "A required tag is missing: id"
    );
    assert_eq!(ParseError::from(error), ParseError::missing_tag("id"));

    let bare = ContextParseError::from(ParseError::missing_value("id"));
    assert_eq!(bare.context(), None);
    assert_eq!(bare.error(), &ParseError::missing_value("id"));
}

#[test]
fn a_collection_error_holds_the_errors_and_what_was_read() {
    let error = CollectionParseError::from(ParseError::missing_tag("id"));
    assert_eq!(error.errors.len(), 1);
    assert_eq!(error.partial_collection, None);
    assert_eq!(error.first_error(), ParseError::missing_tag("id"));

    let collection = CollectionBuilder::new("0.8").origin("flatpak").build();
    let (read, errors) =
        collection_from_result(Ok(CollectionBuilder::new("0.8").origin("flatpak").build()));
    assert_eq!(read, Some(collection));
    assert!(errors.is_empty());

    let partial = CollectionParseError {
        errors: vec![
            ContextParseError::new(ParseError::missing_tag("id"), Element::new("component")),
            ContextParseError::from(ParseError::missing_value("icon")),
        ],
        partial_collection: Some(
            CollectionBuilder::new("0.10")
                .architecture("x86_64")
                .build(),
        ),
    };
    let (read, errors) = collection_from_result(Err(partial));
    assert_eq!(
        read,
        Some(
            CollectionBuilder::new("0.10")
                .architecture("x86_64")
                .build()
        )
    );
    assert_eq!(errors.len(), 2);
    assert_eq!(errors[1].error(), &ParseError::missing_value("icon"));

    let (read, errors) = collection_from_result(Err(CollectionParseError::from(
        ParseError::invalid_tag("x"),
    )));
    assert_eq!(read, None);
    assert_eq!(errors.len(), 1);
}
