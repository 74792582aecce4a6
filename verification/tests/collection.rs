use appstream::builders::{
    CollectionBuilder, ComponentBuilder, ImageBuilder, ReleaseBuilder, ScreenshotBuilder,
};
use appstream::enums::{Category, ComponentKind, Icon, ImageKind, ProjectUrl, Provide};
use appstream::{
    Collection, Element, MarkupTranslatableString, ParseError, TranslatableList, TranslatableString,
};
use flate2::write::GzEncoder;
use flate2::Compression;
use std::io::Write;
use url::Url;

fn parse(xml: &str) -> Element {
    Element::parse(xml.as_bytes()).unwrap()
}

const SPEC_EXAMPLE: &str = r#"<?xml version="1.0" encoding="UTF-8"?>
<components version="0.10">
  <component type="desktop-application">
    <id>org.mozilla.Firefox</id>
    <pkgname>firefox-bin</pkgname>
    <name>Firefox</name>
    <name xml:lang="en_GB">Firefoux</name>
    <summary>Web browser</summary>
    <summary xml:lang="fr_FR">Navigateur web</summary>
    <project_license>MPL-2.0</project_license>
    <keywords>
      <keyword>internet</keyword>
      <keyword>web</keyword>
      <keyword>browser</keyword>
      <keyword xml:lang="fr_FR">navigateur</keyword>
    </keywords>
    <icon type="stock">web-browser</icon>
    <icon type="cached">firefox.png</icon>
    <categories>
      <category>network</category>
      <category>webbrowser</category>
    </categories>
    <url type="homepage">https://www.mozilla.com</url>
    <screenshots>
      <screenshot type="default">
        <image type="source" width="800" height="600">https://www.awesomedistro.example.org/en_US/firefox.desktop/main.png</image>
        <image type="thumbnail" width="200" height="150">https://www.awesomedistro.example.org/en_US/firefox.desktop/main-small.png</image>
      </screenshot>
    </screenshots>
    <provides>
      <binary>firefox</binary>
    </provides>
    <mimetypes>
      <mimetype>text/html</mimetype>
      <mimetype>text/xml</mimetype>
      <mimetype>application/xhtml+xml</mimetype>
      <mimetype>application/vnd.mozilla.xul+xml</mimetype>
      <mimetype>text/mml</mimetype>
      <mimetype>application/x-xpinstall</mimetype>
      <mimetype>x-scheme-handler/http</mimetype>
      <mimetype>x-scheme-handler/https</mimetype>
    </mimetypes>
  </component>
  <component>
    <id>org.freedesktop.PulseAudio</id>
    <name>PulseAudio</name>
    <summary>The PulseAudio sound server</summary>
    <url type="homepage">https://www.freedesktop.org/wiki/Software/PulseAudio/</url>
    <project_license>GPL-2.0+</project_license>
    <provides>
      <library>libpulse-simple.so.0</library>
      <library>libpulse.so.0</library>
      <binary>start-pulseaudio-kde</binary>
      <binary>start-pulseaudio-x11</binary>
    </provides>
    <releases>
      <release version="2.0"/>
    </releases>
  </component>
  <component type="font">
    <id>org.linuxlibertine.LinuxLibertine</id>
    <name>Linux Libertine</name>
    <summary>Linux Libertine Open fonts</summary>
    <provides>
      <font>LinLibertine_M.otf</font>
    </provides>
  </component>
</components>
"#;

#[test]
fn spec_example_collection() {
    let c1 = Collection::try_from(&parse(SPEC_EXAMPLE)).unwrap();

    let c2 = CollectionBuilder::new("0.10")
        .component(
            ComponentBuilder::default()
            .id("org.mozilla.Firefox".into())
            .name(
                TranslatableString::with_default("Firefox").and_locale("en_GB", "Firefoux")
            )
            .kind(ComponentKind::DesktopApplication)
            .pkgname("firefox-bin")
            .project_license("MPL-2.0".into())
            .keywords(TranslatableList::with_default(vec!["internet","web", "browser"]).and_locale("fr_FR", vec!["navigateur"]))
            .summary(TranslatableString::with_default("Web browser").and_locale("fr_FR", "Navigateur web"))
            .url(ProjectUrl::Homepage(Url::parse("https://www.mozilla.com").unwrap()))
            .screenshot(
                ScreenshotBuilder::default()
                .image(
                    ImageBuilder::new(Url::parse("https://www.awesomedistro.example.org/en_US/firefox.desktop/main.png").unwrap())
                        .width(800)
                        .height(600)
                        .build(),
                )
                .image(
                    ImageBuilder::new(Url::parse("https://www.awesomedistro.example.org/en_US/firefox.desktop/main-small.png").unwrap())
                        .kind(ImageKind::Thumbnail)
                        .width(200)
                        .height(150)
                        .build(),
                )
                .build()
            )
            .provide(Provide::Binary("firefox".into()))
            .mimetype("text/html")
            .mimetype("text/xml")
            .mimetype("application/xhtml+xml")
            .mimetype("application/vnd.mozilla.xul+xml")
            .mimetype("text/mml")
            .mimetype("application/x-xpinstall")
            .mimetype("x-scheme-handler/http")
            .mimetype("x-scheme-handler/https")
            .category(Category::Unknown("network".into()))
            .category(Category::Unknown("webbrowser".into()))
            .icon(Icon::Stock("web-browser".into()))
            .icon(Icon::Cached {
                path: "firefox.png".into(),
                width: None,
                height: None,
            })
            .build()
            .unwrap()
        )
        .component(
            ComponentBuilder::default()
            .id("org.freedesktop.PulseAudio".into())
            .name(
                TranslatableString::with_default("PulseAudio")
            )
            .summary(TranslatableString::with_default("The PulseAudio sound server"))
            .project_license("GPL-2.0+".into())
            .url(ProjectUrl::Homepage(Url::parse("https://www.freedesktop.org/wiki/Software/PulseAudio/").unwrap()))
            .provide(Provide::Library("libpulse-simple.so.0".into()))
            .provide(Provide::Library("libpulse.so.0".into()))
            .provide(Provide::Binary("start-pulseaudio-kde".into()))
            .provide(Provide::Binary("start-pulseaudio-x11".into()))
            .release(ReleaseBuilder::new("2.0").build())
            .build()
            .unwrap()
        )
        .component(
            ComponentBuilder::default()
            .id(
                "org.linuxlibertine.LinuxLibertine".into()
            )
            .name(
                TranslatableString::with_default("Linux Libertine")
            )
            .kind(ComponentKind::Font)
            .summary(TranslatableString::with_default("Linux Libertine Open fonts"))
            .provide(Provide::Font("LinLibertine_M.otf".into()))
            .build()
            .unwrap()
        )
        .build();

    assert_eq!(c1, c2);
}

const OTHER_REPOS: &str = r#"<?xml version="1.0" encoding="UTF-8"?>
<components version="0.8">
  <component type="generic">
    <id>adobe-release-x86_64</id>
    <pkgname>adobe-release-x86_64</pkgname>
    <metadata_license>CC0-1.0</metadata_license>
    <name>Adobe</name>
    <summary>Adobe Repository Configuration</summary>
  </component>
  <component type="generic">
    <id>livna-release</id>
    <pkgname>livna-release</pkgname>
    <metadata_license>CC0-1.0</metadata_license>
    <name>Livna</name>
    <summary>Livna Repository Configuration</summary>
  </component>
  <component type="generic">
    <id>rpmfusion-free-release</id>
    <pkgname>rpmfusion-free-release</pkgname>
    <metadata_license>CC0-1.0</metadata_license>
    <name>RPM Fusion Free</name>
    <summary>RPM Fusion Repository Configuration</summary>
  </component>
  <component type="generic">
    <id>rpmfusion-nonfree-release</id>
    <pkgname>rpmfusion-nonfree-release</pkgname>
    <metadata_license>CC0-1.0</metadata_license>
    <name>RPM Fusion Non-Free</name>
    <summary>RPM Fusion Repository Configuration</summary>
  </component>
</components>
"#;

#[test]
fn generic_collection() {
    let c1 = Collection::try_from(&parse(OTHER_REPOS)).unwrap();

    let c2 = CollectionBuilder::new("0.8")
        .component(
            ComponentBuilder::default()
                .id("adobe-release-x86_64".into())
                .name(TranslatableString::with_default("Adobe"))
                .pkgname("adobe-release-x86_64")
                .metadata_license("CC0-1.0".into())
                .summary(TranslatableString::with_default(
                    "Adobe Repository Configuration",
                ))
                .build()
                .unwrap(),
        )
        .component(
            ComponentBuilder::default()
                .id("livna-release".into())
                .name(TranslatableString::with_default("Livna"))
                .pkgname("livna-release")
                .metadata_license("CC0-1.0".into())
                .summary(TranslatableString::with_default(
                    "Livna Repository Configuration",
                ))
                .build()
                .unwrap(),
        )
        .component(
            ComponentBuilder::default()
                .id("rpmfusion-free-release".into())
                .name(TranslatableString::with_default("RPM Fusion Free"))
                .pkgname("rpmfusion-free-release")
                .metadata_license("CC0-1.0".into())
                .summary(TranslatableString::with_default(
                    "RPM Fusion Repository Configuration",
                ))
                .build()
                .unwrap(),
        )
        .component(
            ComponentBuilder::default()
                .id("rpmfusion-nonfree-release".into())
                .name(TranslatableString::with_default("RPM Fusion Non-Free"))
                .pkgname("rpmfusion-nonfree-release")
                .metadata_license("CC0-1.0".into())
                .summary(TranslatableString::with_default(
                    "RPM Fusion Repository Configuration",
                ))
                .build()
                .unwrap(),
        )
        .build();

    assert_eq!(c1, c2);
}

const WEB_APPS: &str = r#"<?xml version="1.0" encoding="UTF-8"?>
<components version="0.8">
  <component type="webapp">
    <id>epiphany-kindlecloud.desktop</id>
    <metadata_license>CC0-1.0</metadata_license>
    <project_license>proprietary</project_license>
    <name>Kindle Cloud Reader</name>
    <summary>Read instantly in your browser</summary>
    <description>
      <p>
        Buy Once, Read Everywhere: You don't need to own a Kindle device to
        enjoy Kindle books.
        Automatically save and synchronize your furthest page read, bookmarks,
        notes, and highlights across all your devices.
        That means you can start reading a book on one device, and pick up where
        you left off on another device.
            </p>
      <p>
        Read the first chapter of a book before you decide whether to buy it.
        Read thousands of free books with a Kindle app, including popular
        classics like The Adventures of Sherlock Holmes, Pride and Prejudice,
        and Treasure Island.
            </p>
      <p>
        To use the Kindle Cloud reader you must have Amazon.com account.
            </p>
    </description>
    <icon type="remote">http://g-ecx.images-amazon.com/images/G/01/kindle/www/ariel/kindle-icon-kcp120._SL90_.png</icon>
    <categories>
      <category>Education</category>
      <category>Literature</category>
    </categories>
    <keywords>
      <keyword>book</keyword>
      <keyword>ebook</keyword>
      <keyword>reader</keyword>
    </keywords>
    <url type="homepage">https://read.amazon.com</url>
    <metadata>
      <value key="X-Needs-Dark-Theme"/>
      <value key="X-Kudo-Popular"/>
    </metadata>
  </component>
</components>
"#;

#[test]
fn web_collection() {
    let c1 = Collection::try_from(&parse(WEB_APPS)).unwrap();

    let c2 = CollectionBuilder::new("0.8")
        .component(
            ComponentBuilder::default()
            .id("epiphany-kindlecloud.desktop".into())
            .name(TranslatableString::with_default("Kindle Cloud Reader"))
            .kind(ComponentKind::WebApplication)
            .metadata_license("CC0-1.0".into())
            .project_license("proprietary".into())
            .summary(TranslatableString::with_default("Read instantly in your browser"))
            .description(
                MarkupTranslatableString::with_default(
                    "<p>\n        Buy Once, Read Everywhere: You don\'t need to own a Kindle device to\n        enjoy Kindle books.\n        Automatically save and synchronize your furthest page read, bookmarks,\n        notes, and highlights across all your devices.\n        That means you can start reading a book on one device, and pick up where\n        you left off on another device.\n            </p><p>\n        Read the first chapter of a book before you decide whether to buy it.\n        Read thousands of free books with a Kindle app, including popular\n        classics like The Adventures of Sherlock Holmes, Pride and Prejudice,\n        and Treasure Island.\n            </p><p>\n        To use the Kindle Cloud reader you must have Amazon.com account.\n            </p>"
                )
            )
            .icon(Icon::Remote{
                width: None,
                height: None,
                url: Url::parse("http://g-ecx.images-amazon.com/images/G/01/kindle/www/ariel/kindle-icon-kcp120._SL90_.png").unwrap()
            })
            .metadata("X-Needs-Dark-Theme".to_string(), None)
            .metadata("X-Kudo-Popular".to_string(), None)
            .category(Category::Education)
            .category(Category::Literature)
            .keywords(TranslatableList::with_default(vec!["book", "ebook", "reader"]))
            .url(ProjectUrl::Homepage(Url::parse("https://read.amazon.com").unwrap()))
            .build()
            .unwrap()
        )
        .build();

    assert_eq!(c1, c2);
}

fn component_text(id: &str) -> String {
    format!("<component><id>{}</id><name>{}</name></component>", id, id)
}

#[test]
fn collection_keeps_origin_architecture_and_document_order() {
    let xml = format!(
        "<components version='0.12' origin='flatpak' architecture='x86_64'>{}<note/>{}{}</components>",
        component_text("b.second"),
        component_text("a.first"),
        component_text("b.second"),
    );
    let collection = Collection::try_from(&parse(&xml)).unwrap();
    assert_eq!("0.12", collection.version);
    assert_eq!(Some("flatpak".to_string()), collection.origin);
    assert_eq!(Some("x86_64".to_string()), collection.architecture);
    let ids: Vec<String> = collection
        .components
        .iter()
        .map(|c| c.id.to_string())
        .collect();
    assert_eq!(ids, vec!["b.second", "a.first", "b.second"]);
}

#[test]
fn collection_with_an_empty_origin_has_none() {
    let collection = Collection::try_from(&parse("<components version='0.8' origin=''/>")).unwrap();
    assert_eq!(None, collection.origin);
    assert_eq!(None, collection.architecture);
    assert!(collection.components.is_empty());
}

#[test]
fn collection_without_a_version_is_rejected() {
    let xml = format!(
        "<components origin='flatpak'>{}</components>",
        component_text("a")
    );
    assert_eq!(
        Collection::try_from(&parse(&xml)),
        Err(ParseError::missing_attribute("version", "collection"))
    );
}

#[test]
fn collection_fails_with_the_first_component_that_fails() {
    for valid in 0..4 {
        let mut xml = String::from("<components version='0.8'>");
        for i in 0..valid {
            xml.push_str(&component_text(&format!("org.example.App{}", i)));
        }
        xml.push_str("<component><name>No identifier</name></component>");
        xml.push_str("<component type='nonsense'><id>late</id></component>");
        xml.push_str("</components>");
        assert_eq!(
            Collection::try_from(&parse(&xml)),
            Err(ParseError::missing_tag("id"))
        );
    }
}

#[test]
fn find_by_id_also_finds_the_desktop_identifier() {
    let xml = format!(
        "<components version='0.8'>{}{}{}{}</components>",
        component_text("org.gnome.gedit"),
        component_text("org.gnome.gedit.desktop"),
        component_text("org.gnome.gedit.desktop.desktop"),
        component_text("org.gnome.gedit"),
    );
    let collection = Collection::try_from(&parse(&xml)).unwrap();
    let found = collection.find_by_id("org.gnome.gedit".into());
    let ids: Vec<String> = found.iter().map(|c| c.id.to_string()).collect();
    assert_eq!(
        ids,
        vec![
            "org.gnome.gedit",
            "org.gnome.gedit.desktop",
            "org.gnome.gedit"
        ]
    );
    assert!(collection.find_by_id("org.gnome".into()).is_empty());
}

fn repository(version: &str, origin: &str, components: usize) -> String {
    let mut xml = format!(
        "<?xml version=\"1.0\" encoding=\"UTF-8\"?>\n<components version=\"{}\" origin=\"{}\">\n",
        version, origin
    );
    for i in 0..components {
        xml.push_str(&format!(
            "  <component type=\"desktop\">\n    <id>org.example.App{}.desktop</id>\n    <name>App {}</name>\n    <name xml:lang=\"de\">Anwendung {}</name>\n    <summary>The application number {}</summary>\n    <icon type=\"cached\" height=\"64\" width=\"64\">org.example.App{}.png</icon>\n    <categories>\n      <category>Utility</category>\n    </categories>\n    <bundle type=\"flatpak\" runtime=\"org.example.Platform/x86_64/1\" sdk=\"org.example.Sdk/x86_64/1\">app/org.example.App{}/x86_64/stable</bundle>\n  </component>\n",
            i, i, i, i, i, i
        ));
    }
    xml.push_str("</components>\n");
    xml
}

fn gzipped(text: &str) -> Vec<u8> {
    let mut encoder = GzEncoder::new(Vec::new(), Compression::default());
    encoder.write_all(text.as_bytes()).unwrap();
    encoder.finish().unwrap()
}

#[test]
fn flathub_latest_collection() {
    let c1 = Collection::from_gzipped_bytes(&gzipped(&repository("0.8", "flathub", 1420))).unwrap();
    assert_eq!(c1.components.len(), 1420);
}

#[test]
fn flathub_beta_collection() {
    let c1 =
        Collection::from_gzipped_bytes(&gzipped(&repository("0.8", "flathub-beta", 149))).unwrap();
    assert_eq!(c1.components.len(), 149);
}

#[test]
fn endless_os_collection() {
    let collection = Collection::from_bytes(repository("0.8", "flatpak", 631).as_bytes()).unwrap();

    assert_eq!(631, collection.components.len());
    assert_eq!(Some("flatpak".into()), collection.origin);
    assert_eq!("0.8", collection.version);
}

#[test]
fn gnome_collection() {
    let collection = Collection::from_bytes(repository("0.8", "flatpak", 24).as_bytes()).unwrap();

    assert_eq!(24, collection.components.len());
    assert_eq!(Some("flatpak".into()), collection.origin);
    assert_eq!("0.8", collection.version);
}

#[test]
fn kde_collection() {
    let collection = Collection::from_bytes(repository("0.8", "flatpak", 69).as_bytes()).unwrap();
    assert_eq!(69, collection.components.len());
    assert_eq!(Some("flatpak".into()), collection.origin);
    assert_eq!("0.8", collection.version);
}

#[test]
fn flathub_collection() {
    let collection = Collection::from_bytes(repository("0.8", "flatpak", 376).as_bytes()).unwrap();
    assert_eq!(376, collection.components.len());
    assert_eq!(Some("flatpak".into()), collection.origin);
    assert_eq!("0.8", collection.version);
}

#[test]
fn gnome_nightly_collection() {
    let collection = Collection::from_bytes(repository("0.8", "flatpak", 58).as_bytes()).unwrap();
    assert_eq!(58, collection.components.len());
    assert_eq!(Some("flatpak".into()), collection.origin);
    assert_eq!("0.8", collection.version);
}
