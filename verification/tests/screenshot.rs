use appstream::builders::{ImageBuilder, ScreenshotBuilder, VideoBuilder};
use appstream::enums::ImageKind;
use appstream::{Element, Image, ParseError, Screenshot, TranslatableString, Video};
use url::Url;

fn parse(xml: &str) -> Element {
    Element::parse(xml.as_bytes()).unwrap()
}

#[test]
fn default_screenshot() {
    let xml = r"
            <screenshot type='default'>
                <image type='source'>https://raw.githubusercontent.com/PapirusDevelopmentTeam/papirus-icon-theme/master/preview.png</image>
            </screenshot>";

    let element = parse(xml);
    let s1 = Screenshot::try_from(&element).unwrap();

    let s2 = ScreenshotBuilder::default().image(
                ImageBuilder::new(Url::parse("https://raw.githubusercontent.com/PapirusDevelopmentTeam/papirus-icon-theme/master/preview.png").unwrap())
                .build()
            )
            .build();

    assert_eq!(s1, s2);
}

#[test]
fn screenshot_caption() {
    let xml = "
        <screenshot type='default'>
            <caption>FooBar showing kitchen-sink functionality.</caption>
            <caption xml:lang='de'>FooBar beim Ausf\u{fc}hren der Sp\u{fc}hlbecken-Funktion.</caption>
            <image type='source' width='800' height='600'>https://www.example.org/en_US/main.png</image>
            <image type='thumbnail' width='752' height='423'>https://www.example.org/en_US/main-large.png</image>
            <image type='thumbnail' width='112' height='63'>https://www.example.org/en_US/main-small.png</image>
        </screenshot>";

    let element = parse(xml);
    let s1 = Screenshot::try_from(&element).unwrap();

    let s2 = ScreenshotBuilder::default()
        .caption(
            TranslatableString::with_default("FooBar showing kitchen-sink functionality.")
                .and_locale(
                    "de",
                    "FooBar beim Ausf\u{fc}hren der Sp\u{fc}hlbecken-Funktion.",
                ),
        )
        .image(
            ImageBuilder::new(Url::parse("https://www.example.org/en_US/main.png").unwrap())
                .width(800)
                .height(600)
                .build(),
        )
        .image(
            ImageBuilder::new(Url::parse("https://www.example.org/en_US/main-large.png").unwrap())
                .width(752)
                .height(423)
                .kind(ImageKind::Thumbnail)
                .build(),
        )
        .image(
            ImageBuilder::new(Url::parse("https://www.example.org/en_US/main-small.png").unwrap())
                .width(112)
                .height(63)
                .kind(ImageKind::Thumbnail)
                .build(),
        )
        .build();
    assert_eq!(s1, s2);
}

#[test]
fn screenshot_video() {
    let xml = r"
            <screenshot>
                <video codec='av1' width='1600' height='900'>https://example.com/foobar/screencast.mkv</video>
            </screenshot>";
    let element = parse(xml);
    let s1 = Screenshot::try_from(&element).unwrap();

    let s2 = ScreenshotBuilder::default()
        .set_default(false)
        .video(
            VideoBuilder::new(Url::parse("https://example.com/foobar/screencast.mkv").unwrap())
                .width(1600)
                .height(900)
                .codec("av1")
                .build(),
        )
        .build();
    assert_eq!(s1, s2);
}

#[test]
fn screenshot_is_the_default_one_only_with_that_type() {
    assert!(
        Screenshot::try_from(&parse("<screenshot type='default'/>"))
            .unwrap()
            .is_default
    );
    assert!(
        !Screenshot::try_from(&parse("<screenshot type='extra'/>"))
            .unwrap()
            .is_default
    );
    assert!(
        !Screenshot::try_from(&parse("<screenshot/>"))
            .unwrap()
            .is_default
    );
    assert!(ScreenshotBuilder::default().build().is_default);
    assert_eq!(
        Screenshot::try_from(&parse("<screenshot/>")).unwrap(),
        Screenshot::default()
    );
}

#[test]
fn image_is_a_source_when_it_has_no_type() {
    let image = Image::try_from(&parse("<image>https://example.org/a.png</image>")).unwrap();
    assert_eq!(image.kind, ImageKind::Source);
    assert_eq!(image.width, None);
    assert_eq!(image.height, None);
    assert_eq!(image.url, Url::parse("https://example.org/a.png").unwrap());
    assert_eq!(image.url.as_str(), "https://example.org/a.png");
}

#[test]
fn image_rejects_what_it_cannot_read() {
    assert_eq!(
        Image::try_from(&parse("<image type='source'/>")),
        Err(ParseError::missing_value("image"))
    );
    assert!(matches!(
        Image::try_from(&parse("<image type='poster'>a.png</image>")),
        Err(ParseError::UrlParseError(_))
    ));
    assert_eq!(
        Image::try_from(&parse(
            "<image type='poster'>https://example.org/a.png</image>"
        )),
        Err(ParseError::invalid_value("poster", "type", "image"))
    );
    assert_eq!(
        Image::try_from(&parse(
            "<image width='wide' height='tall'>https://example.org/a.png</image>"
        )),
        Err(ParseError::invalid_value("wide", "width", "image"))
    );
    assert_eq!(
        Image::try_from(&parse(
            "<image width='10' height='-1'>https://example.org/a.png</image>"
        )),
        Err(ParseError::invalid_value("-1", "height", "image"))
    );
    assert_eq!(
        Image::try_from(&parse(
            "<image width='4294967296'>https://example.org/a.png</image>"
        )),
        Err(ParseError::invalid_value("4294967296", "width", "image"))
    );
}

#[test]
fn image_width_may_be_the_largest_number() {
    let image = Image::try_from(&parse(
        "<image width='4294967295' height='+7'>https://example.org/a.png</image>",
    ))
    .unwrap();
    assert_eq!(image.width, Some(4_294_967_295));
    assert_eq!(image.height, Some(7));
}

#[test]
fn video_keeps_container_and_codec() {
    let video = Video::try_from(&parse(
        "<video container='webm' codec='vp9'>https://example.com/v.webm</video>",
    ))
    .unwrap();
    assert_eq!(
        video,
        VideoBuilder::new(Url::parse("https://example.com/v.webm").unwrap())
            .container("webm")
            .codec("vp9")
            .build()
    );
    assert_eq!(
        Video::try_from(&parse(
            "<video height='x'>https://example.com/v.webm</video>"
        )),
        Err(ParseError::invalid_value("x", "height", "video"))
    );
    assert_eq!(
        Video::try_from(&parse("<video/>")),
        Err(ParseError::missing_value("video"))
    );
}

#[test]
fn screenshot_fails_with_its_first_child_that_fails() {
    assert_eq!(
        Screenshot::try_from(&parse(
            "<screenshot><caption>ok</caption><image/><video/></screenshot>"
        )),
        Err(ParseError::missing_value("image"))
    );
    assert_eq!(
        Screenshot::try_from(&parse("<screenshot><video/><image/></screenshot>")),
        Err(ParseError::missing_value("video"))
    );
}
