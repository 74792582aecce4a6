use appstream::builders::{ArtifactBuilder, IssueBuilder, MissingField, ReleaseBuilder};
use appstream::dates::{deserialize_date, resolve_date};
use appstream::enums::{
    ArtifactKind, Bundle, Checksum, IssueKind, ReleaseKind, ReleaseUrgency, Size,
};
use appstream::{
    Artifact, DateTime, Element, Issue, MarkupTranslatableString, ParseError, Release,
};
use chrono::{TimeZone, Utc};
use url::Url;

fn parse(xml: &str) -> Element {
    Element::parse(xml.as_bytes()).unwrap()
}

fn date(year: i32, month: u32, day: u32) -> DateTime {
    DateTime::from_timestamp(
        Utc.with_ymd_and_hms(year, month, day, 0, 0, 0)
            .unwrap()
            .timestamp(),
    )
}

#[allow(deprecated)]
fn timestamp(text: &str) -> DateTime {
    DateTime::from_timestamp(Utc.datetime_from_str(text, "%s").unwrap().timestamp())
}

#[test]
fn release_artifacts() {
    let x = r"
        <releases>
        <release version='1.2' date='2014-04-12' urgency='high'>
          <description>
            <p>This stable release fixes bugs.</p>
          </description>
  
          <url>https://example.org/releases/version-1.2.html</url>
  
          <issues>
            <issue url='https://example.com/bugzilla/12345'>bz#12345</issue>
            <issue type='cve'>CVE-2019-123456</issue>
          </issues>
  
          <artifacts>
            <artifact type='binary' platform='x86_64-linux-gnu'>
              <location>https://example.com/mytarball.bin.tar.xz</location>
              <checksum type='sha256'>....</checksum>
              <checksum type='blake2b'>....</checksum>
              <size type='download'>12345678</size>
              <size type='installed'>42424242</size>
            </artifact>
            <artifact type='binary' platform='win32'>
              <location>https://example.com/mytarball.bin.exe</location>
            </artifact>
            <artifact type='source'>
              <location>https://example.com/mytarball.tar.xz</location>
              <checksum type='sha256'>....</checksum>
            </artifact>
          </artifacts>
        </release>
        <release version='1.1' type='development' date='2013-10-20' />
        <release version='1.0' date='2012-08-26' />
        </releases>";

    let element = parse(x);
    let mut releases1: Vec<Release> = vec![];
    for e in element.children.iter() {
        releases1.push(Release::try_from(e.as_element().unwrap()).unwrap());
    }

    let releases2 = vec![
        ReleaseBuilder::new("1.2")
            .urgency(ReleaseUrgency::High)
            .description(MarkupTranslatableString::with_default(
                "<p>This stable release fixes bugs.</p>",
            ))
            .date(date(2014, 4, 12))
            .url(Url::parse("https://example.org/releases/version-1.2.html").unwrap())
            .artifact(
                ArtifactBuilder::default()
                    .url(Url::parse("https://example.com/mytarball.bin.tar.xz").unwrap())
                    .kind(ArtifactKind::Binary)
                    .platform("x86_64-linux-gnu")
                    .size(Size::Download(12345678))
                    .size(Size::Installed(42424242))
                    .checksum(Checksum::Sha256("....".into()))
                    .checksum(Checksum::Blake2b("....".into()))
                    .build()
                    .unwrap(),
            )
            .artifact(
                ArtifactBuilder::default()
                    .url(Url::parse("https://example.com/mytarball.bin.exe").unwrap())
                    .kind(ArtifactKind::Binary)
                    .platform("win32")
                    .build()
                    .unwrap(),
            )
            .artifact(
                ArtifactBuilder::default()
                    .url(Url::parse("https://example.com/mytarball.tar.xz").unwrap())
                    .kind(ArtifactKind::Source)
                    .checksum(Checksum::Sha256("....".into()))
                    .build()
                    .unwrap(),
            )
            .build(),
        ReleaseBuilder::new("1.1")
            .kind(ReleaseKind::Development)
            .date(date(2013, 10, 20))
            .build(),
        ReleaseBuilder::new("1.0").date(date(2012, 8, 26)).build(),
    ];
    assert_eq!(releases1, releases2);
}

#[test]
fn release_size() {
    let x = r"
        <releases>
            <release version='1.8' timestamp='1424116753'>
                <description>
                <p>This stable release fixes the following bug:</p>
                <ul>
                    <li>CPU no longer overheats when you hold down spacebar</li>
                </ul>
                </description>
                <size type='download'>12345678</size>
                <size type='installed'>42424242</size>
            </release>
            <release version='1.2' timestamp='1397253600' />
            <release version='1.0' timestamp='1345932000' />
        </releases>
        ";
    let element = parse(x);
    let mut releases: Vec<Release> = vec![];
    for e in element.children.iter() {
        releases.push(Release::try_from(e.as_element().unwrap()).unwrap());
    }

    assert_eq!(
        releases,
        vec![
            ReleaseBuilder::new("1.8")
                .description(MarkupTranslatableString::with_default("<p>This stable release fixes the following bug:</p><ul><li>CPU no longer overheats when you hold down spacebar</li></ul>"))
                .date(timestamp("1424116753"))
                .sizes(vec![Size::Download(12345678), Size::Installed(42424242)])
                .build(),
            ReleaseBuilder::new("1.2")
                .date(timestamp("1397253600"))
                .build(),
            ReleaseBuilder::new("1.0")
                .date(timestamp("1345932000"))
                .build()
        ]
    )
}

#[test]
fn a_timestamp_and_a_calendar_date_give_their_instants() {
    let by_timestamp =
        Release::try_from(&parse("<release version='1.2' timestamp='1397253600'/>")).unwrap();
    assert_eq!(
        by_timestamp.date,
        Some(DateTime::from_timestamp(1_397_253_600))
    );
    assert_eq!(by_timestamp.date.unwrap().timestamp(), 1_397_253_600);

    let by_date = Release::try_from(&parse("<release version='1.0' date='2012-08-26'/>")).unwrap();
    assert_eq!(by_date.date, Some(DateTime::from_timestamp(1_345_939_200)));
    assert_eq!(by_date.date, Some(date(2012, 8, 26)));
}

#[test]
fn a_date_attribute_may_hold_a_timestamp_and_the_other_way_round() {
    let r = Release::try_from(&parse(
        "<release version='2' date='1345939200' date_eol='1345939260' timestamp='2012-08-27'/>",
    ))
    .unwrap();
    assert_eq!(r.date, Some(date(2012, 8, 27)));
    assert_eq!(r.date_eol, Some(DateTime::from_timestamp(1_345_939_260)));
}

#[test]
fn the_text_of_a_date_is_read_as_a_timestamp_first() {
    assert_eq!(deserialize_date("0"), Some(DateTime::from_timestamp(0)));
    assert_eq!(
        deserialize_date("1970-01-02"),
        Some(DateTime::from_timestamp(86_400))
    );
    assert_eq!(deserialize_date("2012-8-26"), Some(date(2012, 8, 26)));
    assert_eq!(deserialize_date("yesterday"), None);
    assert_eq!(deserialize_date("2012-13-01"), None);
    assert_eq!(deserialize_date(""), None);
}

#[test]
fn a_timestamp_wins_over_a_calendar_date() {
    assert_eq!(
        resolve_date(Some(5), Some(7)),
        Some(DateTime::from_timestamp(5))
    );
    assert_eq!(
        resolve_date(Some(5), None),
        Some(DateTime::from_timestamp(5))
    );
    assert_eq!(
        resolve_date(None, Some(7)),
        Some(DateTime::from_timestamp(7))
    );
    assert_eq!(resolve_date(None, None), None);
}

#[test]
fn release_defaults_are_stable_and_medium() {
    let r = Release::try_from(&parse("<release version='0.1'/>")).unwrap();
    assert_eq!(r.kind, ReleaseKind::Stable);
    assert_eq!(r.urgency, ReleaseUrgency::Medium);
    assert_eq!(r.version, "0.1");
    assert_eq!(r.date, None);
    assert_eq!(r.date_eol, None);
    assert_eq!(r.description, None);
    assert_eq!(r.url, None);
    assert!(r.sizes.is_empty());
    assert!(r.artifacts.is_empty());
    assert_eq!(r, ReleaseBuilder::new("0.1").build());
}

#[test]
fn release_attributes_fail_in_their_order() {
    assert_eq!(
        Release::try_from(&parse("<release date='x' urgency='y'/>")),
        Err(ParseError::missing_attribute("version", "release"))
    );
    assert_eq!(
        Release::try_from(&parse(
            "<release version='1' date='x' timestamp='y' date_eol='z'/>"
        )),
        Err(ParseError::invalid_value("x", "date", "release"))
    );
    assert_eq!(
        Release::try_from(&parse(
            "<release version='1' date='5' timestamp='y' date_eol='z'/>"
        )),
        Err(ParseError::invalid_value("y", "timestamp", "release"))
    );
    assert_eq!(
        Release::try_from(&parse("<release version='1' date_eol='z' urgency='huge'/>")),
        Err(ParseError::invalid_value("z", "date_eol", "release"))
    );
    assert_eq!(
        Release::try_from(&parse("<release version='1' urgency='huge' type='beta'/>")),
        Err(ParseError::invalid_value("huge", "urgency", "release"))
    );
    assert_eq!(
        Release::try_from(&parse(
            "<release version='1' urgency='critical' type='beta'><url/></release>"
        )),
        Err(ParseError::invalid_value("beta", "type", "release"))
    );
    assert_eq!(
        Release::try_from(&parse(
            "<release version='1' urgency='low'><url/></release>"
        )),
        Err(ParseError::missing_value("url"))
    );
}

#[test]
fn release_children_fail_with_the_first_that_fails() {
    assert_eq!(
        Release::try_from(&parse(
            "<release version='1'><size type='download'>1</size><size type='other'>2</size><url>::</url></release>"
        )),
        Err(ParseError::invalid_value("other", "type", "size"))
    );
    assert!(matches!(
        Release::try_from(&parse(
            "<release version='1'><url>not a url</url></release>"
        )),
        Err(ParseError::UrlParseError(_))
    ));
    assert_eq!(
        Release::try_from(&parse(
            "<release version='1'><artifacts>text</artifacts></release>"
        )),
        Err(ParseError::invalid_tag("artifact"))
    );
}

#[test]
fn artifact_requires_its_type_and_its_location() {
    assert_eq!(
        Artifact::try_from(&parse(
            "<artifact><location>https://example.com/a</location></artifact>"
        )),
        Err(ParseError::missing_attribute("type", "artifact"))
    );
    assert_eq!(
        Artifact::try_from(&parse("<artifact type='patch'/>")),
        Err(ParseError::invalid_value("patch", "type", "artifact"))
    );
    assert_eq!(
        Artifact::try_from(&parse(
            "<artifact type='source'><size type='download'>1</size></artifact>"
        )),
        Err(ParseError::missing_tag("location"))
    );
    assert_eq!(
        Artifact::try_from(&parse("<artifact type='source'><location/></artifact>")),
        Err(ParseError::missing_value("location"))
    );
}

#[test]
fn artifact_keeps_its_bundles() {
    let a = Artifact::try_from(&parse(
        "<artifact type='binary'><bundle type='snap'>foo</bundle><location>https://example.com/a</location><bundle type='flatpak' sdk='s'>ref</bundle></artifact>",
    ))
    .unwrap();
    assert_eq!(
        a.bundles,
        vec![
            Bundle::Snap("foo".into()),
            Bundle::Flatpak {
                runtime: None,
                sdk: "s".into(),
                reference: "ref".into()
            }
        ]
    );
    assert_eq!(a.platform, None);
    assert_eq!(a.url, Url::parse("https://example.com/a").unwrap());
}

#[test]
fn artifact_builder_names_the_missing_field() {
    assert_eq!(
        ArtifactBuilder::default()
            .kind(ArtifactKind::Source)
            .build(),
        Err(MissingField("url".to_string()))
    );
    assert_eq!(
        ArtifactBuilder::default()
            .url(Url::parse("https://example.com/a").unwrap())
            .build(),
        Err(MissingField("kind".to_string()))
    );
    assert_eq!(
        ArtifactBuilder::default().build(),
        Err(MissingField("url".to_string()))
    );
}

#[test]
fn issue_builder_requires_the_identifier() {
    assert_eq!(
        IssueBuilder::default()
            .identifier("bz#12345".to_string())
            .build(),
        Ok(Issue {
            kind: IssueKind::Generic,
            url: None,
            identifier: "bz#12345".to_string()
        })
    );
    let url = Url::parse("https://example.com/bugzilla/12345").unwrap();
    assert_eq!(
        IssueBuilder::default()
            .kind(IssueKind::Cve)
            .url(url.clone())
            .identifier("CVE-2019-123456".to_string())
            .build(),
        Ok(Issue {
            kind: IssueKind::Cve,
            url: Some(url.clone()),
            identifier: "CVE-2019-123456".to_string()
        })
    );
    assert_eq!(
        IssueBuilder::default()
            .kind(IssueKind::Cve)
            .url(url)
            .build(),
        Err(MissingField("identifier".to_string()))
    );
    assert_eq!(IssueKind::from_str("cve"), Ok(IssueKind::Cve));
    assert_eq!(IssueKind::from_str("generic"), Ok(IssueKind::Generic));
    assert_eq!(IssueKind::default(), IssueKind::Generic);
}

#[test]
fn issues_are_set_by_the_builder_and_not_read_from_documents() {
    let issue = IssueBuilder::default()
        .identifier("bz#1".to_string())
        .build()
        .unwrap();
    let built = ReleaseBuilder::new("1.0").issue(issue.clone()).build();
    assert_eq!(built.issues, vec![issue]);
    let read = Release::try_from(&parse(
        "<release version='1.0'><issues><issue>bz#1</issue></issues></release>",
    ))
    .unwrap();
    assert!(read.issues.is_empty());
    assert_eq!(read, ReleaseBuilder::new("1.0").build());
}

#[test]
fn a_cloned_artifact_has_the_same_parts() {
    let artifact = ArtifactBuilder::default()
        .url(Url::parse("https://example.com/mytarball.bin.tar.xz").unwrap())
        .kind(ArtifactKind::Binary)
        .platform("x86_64-linux-gnu")
        .size(Size::Download(12345678))
        .size(Size::Installed(42424242))
        .checksum(Checksum::Sha256("....".into()))
        .checksum(Checksum::Blake2b("....".into()))
        .bundle(Bundle::Snap("foo".into()))
        .bundle(Bundle::Flatpak {
            runtime: Some("r".into()),
            sdk: "s".into(),
            reference: "ref".into(),
        })
        .build()
        .unwrap();
    assert_eq!(artifact.clone(), artifact);
    let bare = ArtifactBuilder::default()
        .url(Url::parse("https://example.com/a").unwrap())
        .kind(ArtifactKind::Source)
        .build()
        .unwrap();
    assert_eq!(bare.clone(), bare);
    assert_ne!(bare.clone(), artifact);
}
