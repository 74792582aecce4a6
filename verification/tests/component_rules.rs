use appstream::builders::{ComponentBuilder, MissingField};
use appstream::enums::{
    Bundle, ComponentKind, ContentAttribute, ContentRatingVersion, ContentState, FirmwareKind,
    Icon, Provide,
};
use appstream::{
    Component, ContentRating, Control, Element, License, ParseError, Requirement,
    TranslatableString,
};
use std::cmp::Ordering;
use std::path::PathBuf;
use url::Url;

fn parse(xml: &str) -> Element {
    Element::parse(xml.as_bytes()).unwrap()
}

#[test]
fn minimal_document_equals_minimal_builder() {
    for (id, name) in [
        ("com.example.foobar", "Foo Bar"),
        ("a", "b"),
        (
            "org.example.with space",
            "Name <with> markup &amp; entities",
        ),
    ] {
        let mut xml = String::from("<component><id>");
        xml.push_str(id);
        xml.push_str("</id><name>");
        xml.push_str(
            &name
                .replace('&', "&amp;")
                .replace('<', "&lt;")
                .replace('>', "&gt;"),
        );
        xml.push_str("</name></component>");
        let parsed = Component::try_from(&parse(&xml)).unwrap();
        let built = ComponentBuilder::default()
            .id(id.into())
            .name(TranslatableString::with_default(name))
            .build()
            .unwrap();
        assert_eq!(parsed, built);
        assert_eq!(parsed.kind, ComponentKind::Generic);
        assert_eq!(parsed.id.to_string(), id);
        assert_eq!(parsed.name.get_default(), Some(&name.to_string()));
        assert_eq!(parsed.summary, None);
        assert!(parsed.icons.is_empty());
    }
}

#[test]
fn minimal_document_written_by_hand_equals_minimal_builder() {
    let element = Element::new("component")
        .with_child(Element::new("id").with_text("org.example.App"))
        .with_child(Element::new("name").with_text("App"));
    let built = ComponentBuilder::default()
        .id("org.example.App".into())
        .name(TranslatableString::with_default("App"))
        .build()
        .unwrap();
    assert_eq!(Component::try_from(&element), Ok(built));
}

#[test]
fn names_with_distinct_locales_give_one_entry_each() {
    let locales = ["de", "fr", "pt_BR", "cs", "zh_CN", "B", "D"];
    for n in 0..=locales.len() {
        for untagged in [false, true] {
            let mut xml = String::from("<component><id>x</id>");
            for locale in &locales[..n] {
                xml.push_str(&format!(
                    "<name xml:lang='{}'>name in {}</name>",
                    locale, locale
                ));
                xml.push_str(&format!(
                    "<summary xml:lang='{}'>summary in {}</summary>",
                    locale, locale
                ));
            }
            if untagged {
                xml.push_str("<name>plain name</name><summary>plain summary</summary>");
            }
            xml.push_str("</component>");
            let expected = n + if untagged { 1 } else { 0 };
            if expected == 0 {
                assert_eq!(
                    Component::try_from(&parse(&xml)),
                    Err(ParseError::missing_tag("name"))
                );
                continue;
            }
            let component = Component::try_from(&parse(&xml)).unwrap();
            assert_eq!(component.name.len(), expected);
            for locale in &locales[..n] {
                assert_eq!(
                    component.name.get_for_locale(locale),
                    Some(&format!("name in {}", locale))
                );
            }
            assert_eq!(
                component.name.get_default().map(|s| s.as_str()),
                if untagged { Some("plain name") } else { None }
            );
            match &component.summary {
                Some(summary) => {
                    assert_eq!(summary.len(), expected);
                    assert_eq!(summary.get_for_locale("C").is_some(), untagged);
                }
                None => assert_eq!(expected, 0),
            }
        }
    }
}

#[test]
fn a_later_name_of_the_same_locale_replaces_the_earlier_one() {
    let component = Component::try_from(&parse(
        "<component><id>x</id><name xml:lang='de'>eins</name><name>one</name><name xml:lang='de'>zwei</name><name xml:lang='C'>uno</name></component>",
    ))
    .unwrap();
    assert_eq!(component.name.len(), 2);
    assert_eq!(
        component.name.get_for_locale("de"),
        Some(&"zwei".to_string())
    );
    assert_eq!(component.name.get_default(), Some(&"uno".to_string()));
}

#[test]
fn the_highest_content_rating_version_is_kept() {
    let low = "<content_rating type='oars-1.0'><content_attribute id='drugs-alcohol'>mild</content_attribute></content_rating>";
    let high = "<content_rating type='oars-1.1'><content_attribute id='violence-cartoon'>intense</content_attribute><content_attribute id='social-chat'>none</content_attribute></content_rating>";
    let unknown = "<content_rating type='oars-2.0'><content_attribute id='money-gambling'>moderate</content_attribute></content_rating>";
    let expected_high = ContentRating {
        version: ContentRatingVersion::Oars1_1,
        attributes: vec![
            ContentAttribute::ViolenceCartoon(ContentState::Intense),
            ContentAttribute::SocialChat(ContentState::Unset),
        ],
    };
    let expected_low = ContentRating {
        version: ContentRatingVersion::Oars1_0,
        attributes: vec![ContentAttribute::DrugsAlcohol(ContentState::Mild)],
    };
    let expected_unknown = ContentRating {
        version: ContentRatingVersion::Unknown,
        attributes: vec![ContentAttribute::MoneyGambling(ContentState::Moderate)],
    };
    let rating = |parts: &[&str]| {
        let xml = format!(
            "<component><id>x</id><name>n</name>{}</component>",
            parts.concat()
        );
        Component::try_from(&parse(&xml)).unwrap().content_rating
    };
    assert_eq!(rating(&[low, high]), Some(expected_high.clone()));
    assert_eq!(rating(&[high, low]), Some(expected_high.clone()));
    assert_eq!(rating(&[unknown, low, unknown]), Some(expected_low.clone()));
    assert_eq!(
        rating(&[unknown, high, low, unknown]),
        Some(expected_high.clone())
    );
    assert_eq!(rating(&[unknown]), Some(expected_unknown.clone()));
    assert_eq!(rating(&[]), None);
}

#[test]
fn of_two_ratings_with_one_version_the_first_is_kept() {
    let first = "<content_rating type='oars-1.1'><content_attribute id='sex-nudity'>mild</content_attribute></content_rating>";
    let second = "<content_rating type='oars-1.1'><content_attribute id='sex-themes'>mild</content_attribute></content_rating>";
    let xml = format!(
        "<component><id>x</id><name>n</name>{}{}</component>",
        first, second
    );
    let rating = Component::try_from(&parse(&xml))
        .unwrap()
        .content_rating
        .unwrap();
    assert_eq!(
        rating.attributes,
        vec![ContentAttribute::SexNudity(ContentState::Mild)]
    );

    let unknown_a = "<content_rating><content_attribute id='sex-nudity'>mild</content_attribute></content_rating>";
    let unknown_b = "<content_rating type='x'><content_attribute id='sex-themes'>mild</content_attribute></content_rating>";
    let xml = format!(
        "<component><id>x</id><name>n</name>{}{}</component>",
        unknown_a, unknown_b
    );
    let rating = Component::try_from(&parse(&xml))
        .unwrap()
        .content_rating
        .unwrap();
    assert_eq!(
        rating.attributes,
        vec![ContentAttribute::SexNudity(ContentState::Mild)]
    );
}

#[test]
fn the_unknown_version_loses_on_either_side() {
    let all = [
        ContentRatingVersion::Unknown,
        ContentRatingVersion::Oars1_0,
        ContentRatingVersion::Oars1_1,
    ];
    for (i, a) in all.iter().enumerate() {
        for (j, b) in all.iter().enumerate() {
            assert_eq!(a.cmp(b), i.cmp(&j), "{:?} with {:?}", a, b);
            assert_eq!(a.cmp(b), b.cmp(a).reverse());
            assert_eq!(a.cmp(b) == Ordering::Equal, a == b);
        }
    }
    for a in [ContentRatingVersion::Oars1_0, ContentRatingVersion::Oars1_1] {
        assert_eq!(ContentRatingVersion::Unknown.cmp(&a), Ordering::Less);
        assert_eq!(a.cmp(&ContentRatingVersion::Unknown), Ordering::Greater);
    }
    assert_eq!(
        ContentRatingVersion::Unknown.cmp(&ContentRatingVersion::Unknown),
        Ordering::Equal
    );
    assert_eq!(
        ContentRatingVersion::default(),
        ContentRatingVersion::Unknown
    );
}

#[test]
fn icon_dispatch_is_permissive() {
    assert_eq!(
        Icon::try_from(&parse("<icon type=\"remote\">http://x/y.png</icon>")),
        Ok(Icon::Remote {
            url: Url::parse("http://x/y.png").unwrap(),
            width: None,
            height: None
        })
    );
    assert_eq!(
        Icon::try_from(&parse("<icon>foo.png</icon>")),
        Ok(Icon::Local {
            path: PathBuf::from("foo.png"),
            width: None,
            height: None
        })
    );
    assert_eq!(
        Icon::try_from(&parse(
            "<icon type='fancy' width='64' height='x'>foo.png</icon>"
        )),
        Ok(Icon::Local {
            path: PathBuf::from("foo.png"),
            width: Some(64),
            height: None
        })
    );
    assert_eq!(
        Icon::try_from(&parse(
            "<icon type='cached' width='-64' height='48'>a/b.png</icon>"
        )),
        Ok(Icon::Cached {
            path: PathBuf::from("a/b.png"),
            width: None,
            height: Some(48)
        })
    );
    assert_eq!(
        Icon::try_from(&parse("<icon type='stock' width='64'>web-browser</icon>")),
        Ok(Icon::Stock("web-browser".to_string()))
    );
    assert_eq!(
        Icon::try_from(&parse("<icon type='stock'/>")),
        Err(ParseError::missing_value("icon"))
    );
    assert!(matches!(
        Icon::try_from(&parse("<icon type='remote'>foo.png</icon>")),
        Err(ParseError::UrlParseError(_))
    ));
}

#[test]
fn a_remote_icon_holds_the_address_as_the_url_crate_reads_it() {
    let icon = Icon::try_from(&parse(
        "<icon type='remote'>HTTP://Example.ORG/a/../b.png</icon>",
    ))
    .unwrap();
    match &icon {
        Icon::Remote { url, .. } => assert_eq!(url.as_str(), "http://example.org/b.png"),
        other => panic!("not a remote icon: {:?}", other),
    }
    assert_eq!(icon.clone(), icon);
}

#[test]
fn bundle_dispatch_is_strict() {
    assert_eq!(
        Bundle::try_from(&parse("<bundle>foo</bundle>")),
        Err(ParseError::missing_attribute("type", "bundle"))
    );
    assert_eq!(
        Bundle::try_from(&parse("<bundle type='rpm'>foo</bundle>")),
        Err(ParseError::invalid_value("rpm", "type", "bundle"))
    );
    assert_eq!(
        Bundle::try_from(&parse("<bundle type='flatpak'/>")),
        Err(ParseError::missing_value("bundle"))
    );
    assert_eq!(
        Bundle::try_from(&parse("<bundle type='flatpak' runtime='r'>app/x</bundle>")),
        Err(ParseError::missing_attribute("sdk", "bundle"))
    );
    assert_eq!(
        Bundle::try_from(&parse("<bundle type='flatpak' sdk='s'>app/x</bundle>")),
        Ok(Bundle::Flatpak {
            runtime: None,
            sdk: "s".into(),
            reference: "app/x".into()
        })
    );
    assert_eq!(
        Bundle::try_from(&parse(
            "<bundle type='flatpak' sdk='s' runtime='r'>app/x</bundle>"
        )),
        Ok(Bundle::Flatpak {
            runtime: Some("r".into()),
            sdk: "s".into(),
            reference: "app/x".into()
        })
    );
    assert_eq!(
        Bundle::try_from(&parse("<bundle type='limba'>l</bundle>")),
        Ok(Bundle::Limba("l".into()))
    );
    assert_eq!(
        Bundle::try_from(&parse("<bundle type='snap'>s</bundle>")),
        Ok(Bundle::Snap("s".into()))
    );
    assert_eq!(
        Bundle::try_from(&parse("<bundle type='appimage'>a</bundle>")),
        Ok(Bundle::AppImage("a".into()))
    );
    assert_eq!(
        Bundle::try_from(&parse("<bundle type='tarball'>t</bundle>")),
        Ok(Bundle::Tarball("t".into()))
    );
}

#[test]
fn firmware_provide_keeps_the_literal() {
    assert_eq!(
        Provide::try_from(&parse("<firmware type='runtime'>ipw2200-bss.fw</firmware>")),
        Ok(Provide::Firmware {
            kind: FirmwareKind::Runtime,
            item: "ipw2200-bss.fw".to_string()
        })
    );
    assert_eq!(
        Provide::try_from(&parse(
            "<firmware type='flashed'>84f40464-9272-4ef7-9399-cd95f12da696</firmware>"
        )),
        Ok(Provide::Firmware {
            kind: FirmwareKind::Flashed,
            item: "84f40464-9272-4ef7-9399-cd95f12da696".to_string()
        })
    );
    assert_eq!(
        Provide::try_from(&parse("<firmware>ipw2200-bss.fw</firmware>")),
        Err(ParseError::missing_attribute("type", "firmware"))
    );
    assert_eq!(
        Provide::try_from(&parse("<firmware type='boot'>ipw2200-bss.fw</firmware>")),
        Err(ParseError::invalid_value("boot", "type", "firmware"))
    );
}

#[test]
fn provides_are_told_apart_by_their_tag() {
    assert_eq!(
        Provide::try_from(&parse("<library>libfoo.so.1</library>")),
        Ok(Provide::Library(PathBuf::from("libfoo.so.1")))
    );
    assert_eq!(
        Provide::try_from(&parse("<binary>foo</binary>")),
        Ok(Provide::Binary("foo".into()))
    );
    assert_eq!(
        Provide::try_from(&parse("<font>Foo</font>")),
        Ok(Provide::Font("Foo".into()))
    );
    assert_eq!(
        Provide::try_from(&parse("<modalias>pci:*</modalias>")),
        Ok(Provide::Modalias("pci:*".into()))
    );
    assert_eq!(
        Provide::try_from(&parse("<python2>foo</python2>")),
        Ok(Provide::Python2("foo".into()))
    );
    assert_eq!(
        Provide::try_from(&parse("<python3>foo</python3>")),
        Ok(Provide::Python3("foo".into()))
    );
    assert_eq!(
        Provide::try_from(&parse("<dbus>org.foo</dbus>")),
        Ok(Provide::DBus("org.foo".into()))
    );
    assert_eq!(
        Provide::try_from(&parse("<id>org.foo</id>")),
        Ok(Provide::Id("org.foo".into()))
    );
    assert_eq!(
        Provide::try_from(&parse("<codec>mp3</codec>")),
        Ok(Provide::Codec("mp3".into()))
    );
    assert_eq!(
        Provide::try_from(&parse("<gadget>x</gadget>")),
        Err(ParseError::invalid_value("gadget", "type", "provide"))
    );
    assert_eq!(
        Provide::try_from(&parse("<binary/>")),
        Err(ParseError::missing_value("provide"))
    );
}

#[test]
fn a_component_without_an_identifier_is_rejected() {
    for xml in [
        "<component/>",
        "<component><name>Foo</name></component>",
        "<component type='desktop'><name>Foo</name><icon/><releases>text</releases></component>",
        "<component><provides><id>inner</id></provides></component>",
    ] {
        assert_eq!(
            Component::try_from(&parse(xml)),
            Err(ParseError::missing_tag("id"))
        );
    }
    assert_eq!(
        Component::try_from(&parse("<component><id/></component>")),
        Err(ParseError::missing_value("id"))
    );
}

#[test]
fn a_component_without_a_name_is_rejected() {
    for xml in [
        "<component><id>x</id></component>",
        "<component type='font'><id>x</id><summary>s</summary><names><name>n</name></names></component>",
    ] {
        assert_eq!(Component::try_from(&parse(xml)), Err(ParseError::missing_tag("name")));
    }
    assert_eq!(
        Component::try_from(&parse("<component><id>x</id><icon/></component>")),
        Err(ParseError::missing_value("icon"))
    );
    let empty = Component::try_from(&parse("<component><id>x</id><name/></component>")).unwrap();
    assert_eq!(empty.name, TranslatableString::with_default(""));
}

#[test]
fn the_identifier_is_read_before_the_kind() {
    assert_eq!(
        Component::try_from(&parse(
            "<component type='gadget'><name>Foo</name></component>"
        )),
        Err(ParseError::missing_tag("id"))
    );
    assert_eq!(
        Component::try_from(&parse(
            "<component type='gadget'><id>x</id><icon/></component>"
        )),
        Err(ParseError::invalid_value("gadget", "type", "component"))
    );
}

#[test]
fn component_builder_names_the_missing_field() {
    assert_eq!(
        ComponentBuilder::default().build(),
        Err(MissingField("id".to_string()))
    );
    assert_eq!(
        ComponentBuilder::default()
            .name(TranslatableString::with_default("n"))
            .build(),
        Err(MissingField("id".to_string()))
    );
    assert_eq!(
        ComponentBuilder::default().id("x".into()).build(),
        Err(MissingField("name".to_string()))
    );
    assert!(ComponentBuilder::default()
        .id("x".into())
        .name(TranslatableString::default())
        .build()
        .is_ok());
}

#[test]
fn unknown_tags_and_loose_text_are_passed_over() {
    let with = Component::try_from(&parse(
        "<component><future a='b'><id>inner</id></future>text<id>x</id><custom/><!-- c --><name>n</name><name2>m</name2></component>",
    ))
    .unwrap();
    let without =
        Component::try_from(&parse("<component><id>x</id><name>n</name></component>")).unwrap();
    assert_eq!(with, without);
}

#[test]
fn the_first_child_that_fails_decides_the_error_of_a_component() {
    assert_eq!(
        Component::try_from(&parse(
            "<component><id>x</id><pkgname/><project_group/><icon/></component>"
        )),
        Err(ParseError::missing_value("pkgname"))
    );
    assert_eq!(
        Component::try_from(&parse("<component><id>x</id><icon/><pkgname/></component>")),
        Err(ParseError::missing_value("icon"))
    );
    assert_eq!(
        Component::try_from(&parse(
            "<component><id>x</id><languages><lang>de</lang><lang percentage='all'>fr</lang></languages><url>x</url></component>"
        )),
        Err(ParseError::invalid_value("all", "percentage", "language"))
    );
}

#[test]
fn scalars_of_a_component_require_their_text() {
    for tag in [
        "update_contact",
        "project_group",
        "compulsory_for_desktop",
        "pkgname",
        "source_pkgname",
    ] {
        let xml = format!("<component><id>x</id><{}/></component>", tag);
        assert_eq!(
            Component::try_from(&parse(&xml)),
            Err(ParseError::missing_value(tag))
        );
        let xml = format!(
            "<component><id>x</id><name>n</name><{}>one</{}><{}>two</{}></component>",
            tag, tag, tag, tag
        );
        let c = Component::try_from(&parse(&xml)).unwrap();
        let field = match tag {
            "update_contact" => c.update_contact,
            "project_group" => c.project_group,
            "compulsory_for_desktop" => c.compulsory_for_desktop,
            "pkgname" => c.pkgname,
            _ => c.source_pkgname,
        };
        assert_eq!(field, Some("two".to_string()));
    }
    for tag in ["project_license", "metadata_license"] {
        let xml = format!("<component><id>x</id><{}/></component>", tag);
        assert_eq!(
            Component::try_from(&parse(&xml)),
            Err(ParseError::missing_value("license"))
        );
    }
    let c = Component::try_from(&parse(
        "<component><id>x</id><name>n</name><project_license>MIT</project_license><metadata_license>CC0-1.0</metadata_license></component>",
    ))
    .unwrap();
    assert_eq!(c.project_license, Some(License::from("MIT")));
    assert_eq!(c.metadata_license, Some(License("CC0-1.0".to_string())));
    assert_eq!(c.metadata_license.unwrap().to_string(), "CC0-1.0");
}

#[test]
fn lists_of_a_component_name_the_tag_that_is_misused() {
    for (list, tag) in [
        ("categories", "category"),
        ("keywords", "keywords"),
        ("kudos", "kudo"),
        ("mimetypes", "mimetype"),
        ("screenshots", "screenshots"),
        ("releases", "releases"),
        ("languages", "languages"),
        ("provides", "prorivdes"),
        ("suggests", "id"),
        ("metadata", "value"),
        ("requires", "requires"),
        ("recommends", "recommends"),
        ("supports", "supports"),
    ] {
        let xml = format!(
            "<component><id>x</id><{}>loose text</{}></component>",
            list, list
        );
        assert_eq!(
            Component::try_from(&parse(&xml)),
            Err(ParseError::invalid_tag(tag)),
            "{}",
            list
        );
        let xml = format!("<component><id>x</id><name>n</name><{}/></component>", list);
        let c = Component::try_from(&parse(&xml)).unwrap();
        assert_eq!(c.keywords, None);
        assert!(c.metadata.is_empty());
    }
    assert_eq!(
        Component::try_from(&parse(
            "<component><id>x</id><categories><category/></categories></component>"
        )),
        Err(ParseError::missing_value("category"))
    );
    assert_eq!(
        Component::try_from(&parse(
            "<component><id>x</id><kudos><kudo/></kudos></component>"
        )),
        Err(ParseError::missing_value("kudo"))
    );
    assert_eq!(
        Component::try_from(&parse(
            "<component><id>x</id><mimetypes><mimetype/></mimetypes></component>"
        )),
        Err(ParseError::missing_value("mimetype"))
    );
    assert_eq!(
        Component::try_from(&parse(
            "<component><id>x</id><metadata><value>v</value></metadata></component>"
        )),
        Err(ParseError::missing_attribute("key", "value"))
    );
    assert_eq!(
        Component::try_from(&parse(
            "<component><id>x</id><suggests><id/></suggests></component>"
        )),
        Err(ParseError::missing_value("id"))
    );
}

#[test]
fn metadata_keeps_the_last_value_of_a_key() {
    let c = Component::try_from(&parse(
        "<component><id>x</id><name>n</name><metadata><value key='b'>1</value><value key='a'/><value key='b'>2</value></metadata><metadata><value key='c'>3</value></metadata></component>",
    ))
    .unwrap();
    assert_eq!(c.metadata.len(), 3);
    assert_eq!(c.metadata.get("a"), Some(&None));
    assert_eq!(c.metadata.get("b"), Some(&Some("2".to_string())));
    assert_eq!(c.metadata.get("c"), Some(&Some("3".to_string())));
    assert_eq!(c.metadata.get("d"), None);
    let built = ComponentBuilder::default()
        .id("x".into())
        .name(TranslatableString::with_default("n"))
        .metadata("c".into(), Some("3".into()))
        .metadata("b".into(), Some("2".into()))
        .metadata("a".into(), None)
        .build()
        .unwrap();
    assert_eq!(c, built);
}

#[test]
fn relations_of_a_component_are_kept_apart() {
    let c = Component::try_from(&parse(
        "<component><id>x</id><name>n</name><requires><control>touch</control></requires><recommends><id>org.a</id><memory>1</memory></recommends><supports><control>tv-remove</control></supports><requires><id>org.b</id></requires></component>",
    ))
    .unwrap();
    assert_eq!(
        c.requires,
        vec![
            Requirement::Control(Control::Touch),
            Requirement::AppId("org.b".into())
        ]
    );
    assert_eq!(
        c.recommends,
        vec![Requirement::AppId("org.a".into()), Requirement::Other]
    );
    assert_eq!(c.supports, vec![Requirement::Control(Control::TvRemote)]);
    let built = ComponentBuilder::default()
        .id("x".into())
        .name(TranslatableString::with_default("n"))
        .require(Requirement::Control(Control::Touch))
        .recommend(Requirement::AppId("org.a".into()))
        .recommend(Requirement::Other)
        .supports(Requirement::Control(Control::TvRemote))
        .require(Requirement::AppId("org.b".into()))
        .build()
        .unwrap();
    assert_eq!(c, built);
}
