use appstream::enums::{
    ArtifactKind, Category, Checksum, ComponentKind, ContentAttribute, ContentRatingVersion,
    ContentState, FirmwareKind, ImageKind, Kudo, Launchable, ProjectUrl, ReleaseKind,
    ReleaseUrgency, Size, Translation, VariantNotFound,
};
use appstream::links::{address, read_url};
use appstream::requirements::{Rel, Side};
use appstream::{
    AppId, ContentRating, Control, DisplayLength, DisplayLengthValue, Element, Language, License,
    ParseError,
};
use url::Url;

fn parse(xml: &str) -> Element {
    Element::parse(xml.as_bytes()).unwrap()
}

#[test]
fn kinds_are_read_from_their_names() {
    assert_eq!(ArtifactKind::from_str("source"), Ok(ArtifactKind::Source));
    assert_eq!(ArtifactKind::from_str("binary"), Ok(ArtifactKind::Binary));
    assert_eq!(ArtifactKind::from_str("Binary"), Err(VariantNotFound));
    assert_eq!(ArtifactKind::from_str(""), Err(VariantNotFound));
    assert_eq!(ContentState::from_str("none"), Ok(ContentState::Unset));
    assert_eq!(ContentState::from_str("mild"), Ok(ContentState::Mild));
    assert_eq!(
        ContentState::from_str("moderate"),
        Ok(ContentState::Moderate)
    );
    assert_eq!(ContentState::from_str("intense"), Ok(ContentState::Intense));
    assert_eq!(ContentState::from_str("extreme"), Err(VariantNotFound));
    assert_eq!(FirmwareKind::from_str("flashed"), Ok(FirmwareKind::Flashed));
    assert_eq!(FirmwareKind::from_str("runtime"), Ok(FirmwareKind::Runtime));
    assert_eq!(FirmwareKind::from_str("run time"), Err(VariantNotFound));
    assert_eq!(ImageKind::from_str("source"), Ok(ImageKind::Source));
    assert_eq!(ImageKind::from_str("thumbnail"), Ok(ImageKind::Thumbnail));
    assert_eq!(ImageKind::from_str("thumb"), Err(VariantNotFound));
    assert_eq!(ReleaseKind::from_str("stable"), Ok(ReleaseKind::Stable));
    assert_eq!(
        ReleaseKind::from_str("development"),
        Ok(ReleaseKind::Development)
    );
    assert_eq!(ReleaseKind::from_str("snapshot"), Err(VariantNotFound));
    assert_eq!(ReleaseUrgency::from_str("low"), Ok(ReleaseUrgency::Low));
    assert_eq!(
        ReleaseUrgency::from_str("medium"),
        Ok(ReleaseUrgency::Medium)
    );
    assert_eq!(ReleaseUrgency::from_str("high"), Ok(ReleaseUrgency::High));
    assert_eq!(
        ReleaseUrgency::from_str("critical"),
        Ok(ReleaseUrgency::Critical)
    );
    assert_eq!(ReleaseUrgency::from_str("urgent"), Err(VariantNotFound));
}

#[test]
fn kinds_are_written_under_their_names() {
    for kind in [ArtifactKind::Source, ArtifactKind::Binary] {
        assert_eq!(ArtifactKind::from_str(kind.as_str()), Ok(kind));
    }
    for state in [
        ContentState::Unset,
        ContentState::Mild,
        ContentState::Moderate,
        ContentState::Intense,
    ] {
        assert_eq!(ContentState::from_str(state.as_str()), Ok(state));
    }
    for urgency in [
        ReleaseUrgency::Low,
        ReleaseUrgency::Medium,
        ReleaseUrgency::High,
        ReleaseUrgency::Critical,
    ] {
        assert_eq!(ReleaseUrgency::from_str(urgency.as_str()), Ok(urgency));
    }
    assert_eq!(ContentState::Unset.as_str(), "none");
    assert_eq!(ImageKind::Thumbnail.as_str(), "thumbnail");
    assert_eq!(ReleaseKind::Development.as_str(), "development");
    assert_eq!(FirmwareKind::Flashed.as_str(), "flashed");
    assert_eq!(ComponentKind::ConsoleApplication.as_str(), "console");
    assert_eq!(ComponentKind::DesktopApplication.as_str(), "desktop");
    assert_eq!(ComponentKind::WebApplication.as_str(), "web-application");
    assert_eq!(ComponentKind::InputMethod.as_str(), "inputmethod");
    assert_eq!(ComponentKind::OS.as_str(), "operating-system");
    assert_eq!(ComponentKind::IconTheme.as_str(), "icon-theme");
    assert_eq!(ComponentKind::Generic.as_str(), "generic");
}

#[test]
fn kinds_have_their_defaults() {
    assert_eq!(ComponentKind::default(), ComponentKind::Generic);
    assert_eq!(ContentState::default(), ContentState::Unset);
    assert_eq!(ImageKind::default(), ImageKind::Source);
    assert_eq!(ReleaseKind::default(), ReleaseKind::Stable);
    assert_eq!(ReleaseUrgency::default(), ReleaseUrgency::Medium);
    assert_eq!(Rel::default(), Rel::Ge);
    assert_eq!(Side::default(), Side::Shortest);
}

#[test]
fn component_kinds_are_read_from_their_names() {
    for (name, kind) in [
        ("runtime", ComponentKind::Runtime),
        ("console", ComponentKind::ConsoleApplication),
        ("console-application", ComponentKind::ConsoleApplication),
        ("desktop", ComponentKind::DesktopApplication),
        ("desktop-application", ComponentKind::DesktopApplication),
        ("webapp", ComponentKind::WebApplication),
        ("inputmethod", ComponentKind::InputMethod),
        ("operating-system", ComponentKind::OS),
        ("theme", ComponentKind::Theme),
        ("firmware", ComponentKind::Firmware),
        ("addon", ComponentKind::Addon),
        ("font", ComponentKind::Font),
        ("icontheme", ComponentKind::IconTheme),
        ("icon-theme", ComponentKind::IconTheme),
        ("driver", ComponentKind::Driver),
        ("codec", ComponentKind::Codec),
        ("localization", ComponentKind::Localization),
        ("", ComponentKind::Generic),
        ("generic", ComponentKind::Generic),
    ] {
        assert_eq!(ComponentKind::from_str(name), Ok(kind), "{}", name);
    }
    for name in [
        "web-application",
        "Desktop",
        "input-method",
        "os",
        " generic",
    ] {
        assert_eq!(
            ComponentKind::from_str(name),
            Err(ParseError::invalid_value(name, "type", "component"))
        );
    }
}

#[test]
fn categories_are_read_from_their_names() {
    for (name, category) in [
        ("AudioVideo", Category::AudioVideo),
        ("Utility", Category::Utility),
        ("Building", Category::Building),
        ("Ide", Category::IDE),
        ("GuiDesigner", Category::GUIDesigner),
        ("TwoDGraphics", Category::TwoDGraphics),
        ("ThreeDGraphics", Category::ThreeDGraphics),
        ("Ocr", Category::OCR),
        ("Pda", Category::PDA),
        ("IrcClient", Category::IRCClient),
        ("P2p", Category::P2P),
        ("Tv", Category::TV),
        ("Publishing", Category::Publishing),
        ("Viewer", Category::Viewer),
        ("Player", Category::Player),
        ("Recorder", Category::Recorder),
        ("Geography", Category::Geography),
        ("Geology", Category::Geology),
        ("Accessibility", Category::Accessibility),
        ("Calculator", Category::Calculator),
        ("Kde", Category::KDE),
        ("Gnome", Category::GNOME),
        ("Xfce", Category::XFCE),
        ("Gtk", Category::GTK),
        ("Qt", Category::Qt),
        ("ConsoleOnly", Category::ConsoleOnly),
        ("Screensaver", Category::Screensaver),
        ("TrayIcon", Category::TrayIcon),
        ("Applet", Category::Applet),
        ("Shell", Category::Shell),
        ("Education", Category::Education),
        ("Literature", Category::Literature),
    ] {
        assert_eq!(Category::from_str(name), Ok(category), "{}", name);
    }
    for name in [
        "network",
        "webbrowser",
        "IDE",
        "GNOME",
        "KDE",
        "utility",
        "",
        "Unknown",
        "2DGraphics",
    ] {
        assert_eq!(
            Category::from_str(name),
            Ok(Category::Unknown(name.to_string())),
            "{}",
            name
        );
    }
}

#[test]
fn kudos_are_read_from_their_names() {
    for (name, kudo) in [
        ("AppMenu", Kudo::AppMenu),
        ("HiDpiIcon", Kudo::HiDpiIcon),
        ("HighContrast", Kudo::HighContrast),
        ("ModernToolkit", Kudo::ModernToolkit),
        ("Notifications", Kudo::Notifications),
        ("SearchProvider", Kudo::SearchProvider),
        ("UserDocs", Kudo::UserDocs),
    ] {
        assert_eq!(Kudo::from_str(name), Ok(kudo));
    }
    for name in ["HiDPIIcon", "Popular", ""] {
        assert_eq!(Kudo::from_str(name), Ok(Kudo::Unknown(name.to_string())));
    }
}

#[test]
fn rating_versions_are_read_from_their_names() {
    assert_eq!(
        ContentRatingVersion::from_str("oars-1.0"),
        ContentRatingVersion::Oars1_0
    );
    assert_eq!(
        ContentRatingVersion::from_str("oars-1.1"),
        ContentRatingVersion::Oars1_1
    );
    assert_eq!(
        ContentRatingVersion::from_str("oars-1.2"),
        ContentRatingVersion::Unknown
    );
    assert_eq!(
        ContentRatingVersion::from_str(""),
        ContentRatingVersion::Unknown
    );
}

#[test]
fn launchable_dispatch_is_permissive_but_needs_a_type() {
    assert_eq!(
        Launchable::try_from(&parse(
            "<launchable type='desktop-id'>org.x.desktop</launchable>"
        )),
        Ok(Launchable::DesktopId("org.x.desktop".into()))
    );
    assert_eq!(
        Launchable::try_from(&parse("<launchable type='service'>x.service</launchable>")),
        Ok(Launchable::Service("x.service".into()))
    );
    assert_eq!(
        Launchable::try_from(&parse("<launchable type='cockpit-manifest'>x</launchable>")),
        Ok(Launchable::CockpitManifest("x".into()))
    );
    assert_eq!(
        Launchable::try_from(&parse(
            "<launchable type='url'>https://example.org/app</launchable>"
        )),
        Ok(Launchable::Url(
            Url::parse("https://example.org/app").unwrap()
        ))
    );
    assert!(matches!(
        Launchable::try_from(&parse("<launchable type='url'>app</launchable>")),
        Err(ParseError::UrlParseError(_))
    ));
    assert_eq!(
        Launchable::try_from(&parse("<launchable type='teleport'>x</launchable>")),
        Ok(Launchable::Unknown("x".into()))
    );
    assert_eq!(
        Launchable::try_from(&parse("<launchable type='service'/>")),
        Ok(Launchable::Service(String::new()))
    );
    assert_eq!(
        Launchable::try_from(&parse("<launchable>x</launchable>")),
        Err(ParseError::missing_attribute("type", "launchable"))
    );
    let url = Launchable::try_from(&parse(
        "<launchable type='url'>https://example.org/app</launchable>",
    ))
    .unwrap();
    assert_eq!(url.clone(), url);
}

#[test]
fn translation_dispatch_is_permissive_but_needs_a_type() {
    assert_eq!(
        Translation::try_from(&parse("<translation type='gettext'>contrast</translation>")),
        Ok(Translation::Gettext("contrast".into()))
    );
    assert_eq!(
        Translation::try_from(&parse(
            "<translation type='qt'>app/translations</translation>"
        )),
        Ok(Translation::Qt("app/translations".into()))
    );
    assert_eq!(
        Translation::try_from(&parse("<translation type='qt'/>")),
        Ok(Translation::Qt(String::new()))
    );
    assert_eq!(
        Translation::try_from(&parse("<translation type='fluent'>x</translation>")),
        Ok(Translation::Unknown)
    );
    assert_eq!(
        Translation::try_from(&parse("<translation>x</translation>")),
        Err(ParseError::missing_attribute("type", "translation"))
    );
}

#[test]
fn project_urls_are_told_apart_by_their_type() {
    let u = Url::parse("https://example.org/").unwrap();
    for (kind, expected) in [
        ("help", ProjectUrl::Help(u.clone())),
        ("homepage", ProjectUrl::Homepage(u.clone())),
        ("donation", ProjectUrl::Donation(u.clone())),
        ("contact", ProjectUrl::Contact(u.clone())),
        ("translate", ProjectUrl::Translate(u.clone())),
        ("faq", ProjectUrl::Faq(u.clone())),
        ("bugtracker", ProjectUrl::BugTracker(u.clone())),
        ("vcs-browser", ProjectUrl::Unknown(u.clone())),
    ] {
        let xml = format!("<url type='{}'>https://example.org</url>", kind);
        let parsed = ProjectUrl::try_from(&parse(&xml));
        assert_eq!(parsed, Ok(expected.clone()));
        assert_eq!(parsed.unwrap().clone(), expected);
    }
    assert_eq!(
        ProjectUrl::try_from(&parse("<url type='homepage'/>")),
        Err(ParseError::missing_value("url"))
    );
    assert_eq!(
        ProjectUrl::try_from(&parse("<url>https://example.org</url>")),
        Err(ParseError::missing_attribute("type", "url"))
    );
    assert_eq!(
        ProjectUrl::try_from(&parse("<url>example</url>")),
        Err(ParseError::missing_attribute("type", "url"))
    );
    assert_eq!(
        ProjectUrl::try_from(&parse("<url type='homepage'>example</url>")),
        Err(ParseError::UrlParseError(
            "relative URL without a base".to_string()
        ))
    );
}

#[test]
fn checksums_are_told_apart_by_their_type() {
    assert_eq!(
        Checksum::try_from(&parse("<checksum type='sha1'>ab</checksum>")),
        Ok(Checksum::Sha1("ab".into()))
    );
    assert_eq!(
        Checksum::try_from(&parse("<checksum type='sha256'>ab</checksum>")),
        Ok(Checksum::Sha256("ab".into()))
    );
    assert_eq!(
        Checksum::try_from(&parse("<checksum type='blake2b'>ab</checksum>")),
        Ok(Checksum::Blake2b("ab".into()))
    );
    assert_eq!(
        Checksum::try_from(&parse("<checksum type='blake2s'>ab</checksum>")),
        Ok(Checksum::Blake2s("ab".into()))
    );
    assert_eq!(
        Checksum::try_from(&parse("<checksum type='md5'>ab</checksum>")),
        Err(ParseError::invalid_value("md5", "type", "checksum"))
    );
    assert_eq!(
        Checksum::try_from(&parse("<checksum>ab</checksum>")),
        Err(ParseError::missing_attribute("type", "checksum"))
    );
    assert_eq!(
        Checksum::try_from(&parse("<checksum type='sha1'/>")),
        Err(ParseError::missing_value("checksum"))
    );
}

#[test]
fn sizes_are_numbers_of_bytes() {
    assert_eq!(
        Size::try_from(&parse("<size type='download'>12345678</size>")),
        Ok(Size::Download(12345678))
    );
    assert_eq!(
        Size::try_from(&parse("<size type='installed'>0</size>")),
        Ok(Size::Installed(0))
    );
    assert_eq!(
        Size::try_from(&parse("<size type='installed'>18446744073709551615</size>")),
        Ok(Size::Installed(u64::MAX))
    );
    assert_eq!(
        Size::try_from(&parse("<size type='installed'>18446744073709551616</size>")),
        Err(ParseError::invalid_value(
            "18446744073709551616",
            "installed",
            "size"
        ))
    );
    assert_eq!(
        Size::try_from(&parse("<size type='download'>12 MB</size>")),
        Err(ParseError::invalid_value("12 MB", "download", "size"))
    );
    assert_eq!(
        Size::try_from(&parse("<size type='unpacked'>12</size>")),
        Err(ParseError::invalid_value("unpacked", "type", "size"))
    );
    assert_eq!(
        Size::try_from(&parse("<size>12</size>")),
        Err(ParseError::missing_attribute("type", "size"))
    );
    assert_eq!(
        Size::try_from(&parse("<size type='download'/>")),
        Err(ParseError::missing_value("size"))
    );
}

#[test]
fn languages_have_a_locale_and_maybe_a_percentage() {
    assert_eq!(
        Language::try_from(&parse("<lang>de_DE</lang>")),
        Ok(Language {
            percentage: None,
            locale: "de_DE".into()
        })
    );
    assert_eq!(
        Language::try_from(&parse("<lang percentage='96'>de_AT</lang>")),
        Ok(Language {
            percentage: Some(96),
            locale: "de_AT".into()
        })
    );
    assert_eq!(
        Language::try_from(&parse("<lang percentage='96%'>de_AT</lang>")),
        Err(ParseError::invalid_value("96%", "percentage", "language"))
    );
    assert_eq!(
        Language::try_from(&parse("<lang percentage='96'/>")),
        Err(ParseError::missing_value("language"))
    );
    assert_eq!(
        Language::default(),
        Language {
            percentage: None,
            locale: String::new()
        }
    );
}

#[test]
fn content_attributes_need_an_intensity_and_an_identifier() {
    assert_eq!(
        ContentAttribute::try_from(&parse(
            "<content_attribute id='violence-cartoon'>mild</content_attribute>"
        )),
        Ok(ContentAttribute::ViolenceCartoon(ContentState::Mild))
    );
    assert_eq!(
        ContentAttribute::try_from(&parse(
            "<content_attribute id='money-gambling'>none</content_attribute>"
        )),
        Ok(ContentAttribute::MoneyGambling(ContentState::Unset))
    );
    assert_eq!(
        ContentAttribute::try_from(&parse(
            "<content_attribute id='language-humor'>intense</content_attribute>"
        )),
        Ok(ContentAttribute::LanguageHumor(ContentState::Intense))
    );
    assert_eq!(
        ContentAttribute::try_from(&parse("<content_attribute id='violence-cartoon'/>")),
        Err(ParseError::missing_value("content-attribute"))
    );
    assert_eq!(
        ContentAttribute::try_from(&parse("<content_attribute>strong</content_attribute>")),
        Err(ParseError::invalid_value(
            "strong",
            "$value",
            "content-attribute"
        ))
    );
    assert_eq!(
        ContentAttribute::try_from(&parse("<content_attribute>mild</content_attribute>")),
        Err(ParseError::missing_attribute("id", "content-attribute"))
    );
    assert_eq!(
        ContentAttribute::try_from(&parse(
            "<content_attribute id='violence'>mild</content_attribute>"
        )),
        Err(ParseError::invalid_value(
            "violence",
            "id",
            "content-attribute"
        ))
    );
}

#[test]
fn content_ratings_hold_their_attributes_in_order() {
    assert_eq!(
        ContentRating::try_from(&parse(
            "<content_rating type='oars-1.1'><content_attribute id='social-info'>mild</content_attribute><content_attribute id='social-audio'>moderate</content_attribute></content_rating>"
        )),
        Ok(ContentRating {
            version: ContentRatingVersion::Oars1_1,
            attributes: vec![
                ContentAttribute::SocialInfo(ContentState::Mild),
                ContentAttribute::SocialAudio(ContentState::Moderate)
            ]
        })
    );
    assert_eq!(
        ContentRating::try_from(&parse("<content_rating/>")),
        Ok(ContentRating {
            version: ContentRatingVersion::Unknown,
            attributes: vec![]
        })
    );
    assert_eq!(
        ContentRating::try_from(&parse(
            "<content_rating type='oars-1.0'>text</content_rating>"
        )),
        Err(ParseError::invalid_tag("content-attribute"))
    );
}

#[test]
fn requirement_values_are_read_from_their_names() {
    for (name, rel) in [
        ("eq", Rel::Eq),
        ("ne", Rel::Ne),
        ("lt", Rel::Lt),
        ("gt", Rel::Gt),
        ("le", Rel::Le),
        ("ge", Rel::Ge),
    ] {
        assert_eq!(Rel::try_from(name), Ok(rel));
    }
    assert_eq!(
        Rel::try_from("=="),
        Err(ParseError::invalid_value("==", "compare", "display_length"))
    );
    assert_eq!(Side::try_from("shortest"), Ok(Side::Shortest));
    assert_eq!(Side::try_from("longest"), Ok(Side::Longest));
    assert_eq!(
        Side::try_from("both"),
        Err(ParseError::invalid_value("both", "side", "display_length"))
    );
    for (name, control) in [
        ("pointing", Control::Pointing),
        ("keyboard", Control::Keyboard),
        ("console", Control::Console),
        ("tablet", Control::Tablet),
        ("touch", Control::Touch),
        ("gamepad", Control::Gamepad),
        ("tv-remove", Control::TvRemote),
        ("voice", Control::Voice),
        ("vision", Control::Vision),
    ] {
        assert_eq!(Control::try_from(name), Ok(control));
    }
    assert_eq!(
        Control::try_from("mind"),
        Err(ParseError::invalid_value("mind", "type", "compare"))
    );
    for (name, value) in [
        ("xsmall", DisplayLengthValue::Xsmall),
        ("small", DisplayLengthValue::Small),
        ("medium", DisplayLengthValue::Medium),
        ("large", DisplayLengthValue::Large),
        ("xlarge", DisplayLengthValue::Xlarge),
        ("360", DisplayLengthValue::Value(360)),
        ("0", DisplayLengthValue::Value(0)),
    ] {
        assert_eq!(DisplayLengthValue::try_from(name), Ok(value));
    }
    assert_eq!(
        DisplayLengthValue::try_from("huge"),
        Err(ParseError::invalid_value(
            "huge",
            "$value",
            "display_length"
        ))
    );
    assert_eq!(
        DisplayLength::try_from(&parse(
            "<display_length side='longest' compare='lt'>xlarge</display_length>"
        )),
        Ok(DisplayLength {
            compare: Rel::Lt,
            value: DisplayLengthValue::Xlarge,
            side: Side::Longest
        })
    );
    assert_eq!(
        DisplayLength::try_from(&parse("<display_length compare='lt'/>")),
        Err(ParseError::missing_value("display_length"))
    );
    assert_eq!(
        DisplayLength::try_from(&parse(
            "<display_length compare='about' side='any'>1</display_length>"
        )),
        Err(ParseError::invalid_value(
            "about",
            "compare",
            "display_length"
        ))
    );
}

#[test]
fn identifiers_and_licenses_are_their_text() {
    assert_eq!(
        AppId::try_from(&parse("<id>org.example.App</id>")),
        Ok(AppId("org.example.App".to_string()))
    );
    assert_eq!(
        AppId::try_from(&parse("<id/>")),
        Err(ParseError::missing_value("id"))
    );
    assert_eq!(AppId::from("a.b"), AppId::from("a.b".to_string()));
    assert_eq!(AppId::from("a.b").to_string(), "a.b");
    assert_eq!(
        License::try_from(&parse("<project_license>MIT</project_license>")),
        Ok(License("MIT".to_string()))
    );
    assert_eq!(
        License::try_from(&parse("<project_license/>")),
        Err(ParseError::missing_value("license"))
    );
    assert_eq!(License::from("MIT"), License::from("MIT".to_string()));
}

#[test]
fn an_address_is_kept_and_a_message_becomes_an_error() {
    let url = Url::parse("https://example.org/a?b=c#d").unwrap();
    assert_eq!(address(Ok(url.clone())), Ok(url));
    assert_eq!(
        address(Err("empty host".to_string())),
        Err(ParseError::UrlParseError("empty host".to_string()))
    );
    assert_eq!(
        read_url("https://EXAMPLE.org"),
        Ok(Url::parse("https://example.org/").unwrap())
    );
    assert_eq!(
        read_url("https://example.org").unwrap().as_str(),
        "https://example.org/"
    );
    assert_eq!(
        read_url("//example.org"),
        Err(ParseError::UrlParseError(
            "relative URL without a base".to_string()
        ))
    );
    assert_eq!(
        read_url("http://"),
        Err(ParseError::UrlParseError("empty host".to_string()))
    );
}

#[test]
fn a_project_url_is_made_of_its_kind_and_its_address() {
    let url = Url::parse("https://example.org/").unwrap();
    assert_eq!(
        ProjectUrl::with_kind("faq", url.clone()),
        ProjectUrl::Faq(url.clone())
    );
    assert_eq!(
        ProjectUrl::with_kind("FAQ", url.clone()),
        ProjectUrl::Unknown(url.clone())
    );
    assert_eq!(
        ProjectUrl::with_kind("", url.clone()),
        ProjectUrl::Unknown(url)
    );
}

#[test]
fn rating_versions_compare_with_the_unknown_one_lowest() {
    let (v10, v11, unknown) = (
        ContentRatingVersion::Oars1_0,
        ContentRatingVersion::Oars1_1,
        ContentRatingVersion::Unknown,
    );
    assert!(v10 < v11);
    assert!(v11 > v10);
    assert!(unknown < v10);
    assert!(unknown < v11);
    assert!(v10 > unknown);
    assert!(v10 <= v10 && v10 >= v10);
    assert!(!(unknown < unknown));
    assert!(unknown <= unknown && unknown >= unknown);
    assert!(!(v11 < v11) && !(v10 > v10));
}
