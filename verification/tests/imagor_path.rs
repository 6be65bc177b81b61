use imagor_rs::imagorpath::color::{Color, NamedColor};
use imagor_rs::imagorpath::filter::{
    Filter, FocalParams, ImageType, LabelParams, LabelPosition, PaddingParams, RoundedCornerParams,
    WatermarkParams, WatermarkPosition,
};
use imagor_rs::imagorpath::params::{Fit, HAlign, Params, TrimBy, VAlign};
use imagor_rs::imagorpath::parse::{filter_from, parse_filters, parse_path, path_crashes};
use imagor_rs::imagorpath::type_utils::F32;

fn num(s: &str) -> F32 {
    F32::parse(s).unwrap()
}

fn chars(s: &str) -> Vec<char> {
    s.chars().collect()
}

fn one_filter(text: &str) -> Option<Filter> {
    let input = format!("filters:{}", text);
    let (rest, fs) = parse_filters(&input).unwrap();
    if rest.is_empty() && fs.len() == 1 {
        fs.into_iter().next()
    } else {
        None
    }
}

#[test]
fn test_parse_generate_non_url_image() {
    let uri = "meta/trim/10x11:12x13/fit-in/-300x-200/left/top/smart/filters:grayscale()/img";
    let expected_params = Params {
        path: Some(
            "meta/trim/10x11:12x13/fit-in/-300x-200/left/top/smart/filters:grayscale()/img"
                .to_string(),
        ),
        image: Some("img".to_string()),
        trim: true,
        trim_by: TrimBy::TopLeft,
        crop_left: Some(num("10.0")),
        crop_top: Some(num("11.0")),
        crop_right: Some(num("12.0")),
        crop_bottom: Some(num("13.0")),
        width: Some(300),
        height: Some(200),
        meta: true,
        h_flip: true,
        v_flip: true,
        h_align: Some(HAlign::Left),
        v_align: Some(VAlign::Top),
        smart: true,
        fit: Some(Fit::FitIn),
        filters: vec![Filter::Grayscale],
        ..Default::default()
    };
    let (_, result) = parse_path(uri).unwrap();
    assert_eq!(result, expected_params, "Failed test: non url image");
}

#[test]
fn test_parse_generate_real_example() {
    let uri = "unsafe/30x40:100x150/filters:fill(cyan)/raw.githubusercontent.com/cshum/imagor/master/testdata/dancing-banana.gif";
    let expected_params = Params {
        path: Some("unsafe/30x40:100x150/filters:fill(cyan)/raw.githubusercontent.com/cshum/imagor/master/testdata/dancing-banana.gif".to_string()),
        image: Some("raw.githubusercontent.com/cshum/imagor/master/testdata/dancing-banana.gif".to_string()),
        trim: false,
        trim_by: TrimBy::TopLeft,
        crop_left: Some(num("30.0")),
        crop_top: Some(num("40.0")),
        crop_right: Some(num("100.0")),
        crop_bottom: Some(num("150.0")),
        filters: vec![Filter::Fill(Color::Named(NamedColor::Cyan))],
        ..Default::default()
    };
    let (_, result) = parse_path(uri).unwrap();
    assert_eq!(result, expected_params, "Failed test: real image");
}

#[test]
fn test_parse_generate_url_image() {
    let uri = "meta/trim:bottom-right:100/10x11:12x13/fit-in/-300x-200/left/top/smart/filters:grayscale()/s.glbimg.com/es/ge/f/original/2011/03/29/orlandosilva_60.jpg";
    let expected_params = Params {
        path: Some("meta/trim:bottom-right:100/10x11:12x13/fit-in/-300x-200/left/top/smart/filters:grayscale()/s.glbimg.com/es/ge/f/original/2011/03/29/orlandosilva_60.jpg".to_string()),
        image: Some("s.glbimg.com/es/ge/f/original/2011/03/29/orlandosilva_60.jpg".to_string()),
        trim: true,
        trim_by: TrimBy::BottomRight,
        trim_tolerance: Some(num("100.0")),
        crop_left: Some(num("10.0")),
        crop_top: Some(num("11.0")),
        crop_right: Some(num("12.0")),
        crop_bottom: Some(num("13.0")),
        width: Some(300),
        height: Some(200),
        meta: true,
        h_flip: true,
        v_flip: true,
        h_align: Some(HAlign::Left),
        v_align: Some(VAlign::Top),
        smart: true,
        fit: Some(Fit::FitIn),
        filters: vec![Filter::Grayscale],
        ..Default::default()
    };
    let (_, result) = parse_path(uri).unwrap();
    assert_eq!(result, expected_params, "Failed test: url image");
}

fn watermark_case() -> Filter {
    Filter::Watermark(WatermarkParams {
        image: "s.glbimg.com/filters:label(abc):watermark(aaa.com/fit-in/filters:aaa(bbb))/aaa.jpg"
            .to_string(),
        x: WatermarkPosition::Pixels(0),
        y: WatermarkPosition::Pixels(0),
        alpha: 0,
        w_ratio: None,
        h_ratio: None,
    })
}

#[test]
fn test_parse_filters_with_image() {
    let input = "filters:watermark(s.glbimg.com/filters:label(abc):watermark(aaa.com/fit-in/filters:aaa(bbb))/aaa.jpg,0,0,0):brightness(-50):grayscale()/some/example/img";
    let expected = (
        "some/example/img",
        vec![watermark_case(), Filter::Brightness(-50), Filter::Grayscale],
    );
    let result = parse_filters(input).unwrap();
    assert_eq!(result, expected);
}

#[test]
fn test_parse_filters_without_image() {
    let input = "filters:watermark(s.glbimg.com/filters:label(abc):watermark(aaa.com/fit-in/filters:aaa(bbb))/aaa.jpg,0,0,0):brightness(-50):grayscale()";
    let expected = ("", vec![watermark_case(), Filter::Brightness(-50), Filter::Grayscale]);
    let result = parse_filters(input).unwrap();
    assert_eq!(result, expected);
}

#[test]
fn parse_filters_needs_its_prefix() {
    assert!(parse_filters("grayscale()").is_err());
    assert_eq!(parse_filters("filters:/img").unwrap(), ("img", vec![]));
}

#[test]
fn imagor_path_parts_are_optional() {
    let (rest, p) = parse_path("/img.png").unwrap();
    assert_eq!(rest, "");
    assert_eq!(p.image, Some("img.png".to_string()));
    assert_eq!(p.path, Some("/img.png".to_string()));
    let (rest, p) = parse_path("").unwrap();
    assert_eq!(rest, "");
    assert_eq!(p.image, None);
    let (rest, p) = parse_path("stretch/10x/img?x=1").unwrap();
    assert_eq!(rest, "?x=1");
    assert_eq!(p.fit, Some(Fit::Stretch));
    assert_eq!(p.width, Some(10));
    assert_eq!(p.height, None);
}

#[test]
fn imagor_fit_in_then_stretch_is_fit_in() {
    let (_, p) = parse_path("fit-in/stretch/img").unwrap();
    assert_eq!(p.fit, Some(Fit::FitIn));
    assert_eq!(p.image, Some("img".to_string()));
    let (_, p) = parse_path("stretch/img").unwrap();
    assert_eq!(p.fit, Some(Fit::Stretch));
    assert_eq!(p.image, Some("img".to_string()));
}

#[test]
fn imagor_oversized_dimension_crashes() {
    assert!(path_crashes("99999999999x1/img"));
    assert!(path_crashes("fit-in/1x-2147483648/img"));
    assert!(!path_crashes("fit-in/1x-2147483647/img"));
    assert!(!path_crashes("img"));
}

#[test]
fn imagor_filters_of_each_kind() {
    assert_eq!(
        one_filter("backgroundcolor(FFF000)"),
        Some(Filter::BackgroundColor(Color::NoColor))
    );
    assert_eq!(
        one_filter("backgroundcolor(#FFF000)"),
        Some(Filter::BackgroundColor(Color::Hex("FFF000".to_string())))
    );
    assert_eq!(one_filter("blur(1.50)"), Some(Filter::Blur(num("1.5"))));
    assert_eq!(one_filter("BRIGHTNESS(+7)"), Some(Filter::Brightness(7)));
    assert_eq!(one_filter("contrast(-3)"), Some(Filter::Contrast(-3)));
    assert_eq!(
        one_filter("focal(1x2:3x4)"),
        Some(Filter::Focal(FocalParams::Region {
            top_left: (num("1"), num("2")),
            bottom_right: (num("3"), num("4")),
        }))
    );
    assert_eq!(one_filter("focal(1.5x2)"), Some(Filter::Focal(FocalParams::Point(num("1.5"), num("2")))));
    assert_eq!(one_filter("format(webp)"), Some(Filter::Format(ImageType::WEBP)));
    assert_eq!(one_filter("format(bogus)"), None);
    assert_eq!(one_filter("hue(30)"), Some(Filter::Hue(num("30"))));
    assert_eq!(one_filter("maxbytes(1000)"), Some(Filter::MaxBytes(1000)));
    assert_eq!(one_filter("maxframes(3)"), Some(Filter::MaxFrames(3)));
    assert_eq!(
        one_filter("modulate(10,20,30)"),
        Some(Filter::Modulate(num("10"), num("20"), num("30")))
    );
    assert_eq!(one_filter("modulate(10,20)"), None);
    assert_eq!(one_filter("orient(90)"), Some(Filter::Orient(90)));
    assert_eq!(one_filter("page(2)"), Some(Filter::Page(2)));
    assert_eq!(one_filter("dpi(300)"), Some(Filter::Dpi(300)));
    assert_eq!(one_filter("proportion(0.5)"), Some(Filter::Proportion(num("0.5"))));
    assert_eq!(one_filter("quality(80)"), Some(Filter::Quality(80)));
    assert_eq!(one_filter("quality(256)"), None);
    assert_eq!(one_filter("rgb(1,-2,3)"), Some(Filter::Rgb(num("1"), num("-2"), num("3"))));
    assert_eq!(one_filter("rotate(180)"), Some(Filter::Rotate(180)));
    assert_eq!(
        one_filter("roundcorner(5,6,red)"),
        Some(Filter::RoundCorner(RoundedCornerParams {
            rx: 5,
            ry: Some(6),
            color: Some(Color::Named(NamedColor::Red)),
        }))
    );
    assert_eq!(one_filter("saturation(-10)"), Some(Filter::Saturation(num("-10"))));
    assert_eq!(one_filter("sharpen(2)"), Some(Filter::Sharpen(num("2"))));
    assert_eq!(one_filter("stripexif()"), Some(Filter::StripExif));
    assert_eq!(one_filter("stripicc()"), Some(Filter::StripIcc));
    assert_eq!(one_filter("stripmetadata()"), Some(Filter::StripMetadata));
    assert_eq!(one_filter("upscale()"), Some(Filter::Upscale));
    assert_eq!(one_filter("nosuchfilter()"), None);
    assert_eq!(
        one_filter("label(Hi there,center,-10,20,blue,50,serif)"),
        Some(Filter::Label(LabelParams {
            text: "Hi there".to_string(),
            x: LabelPosition::Center,
            y: LabelPosition::Pixels(-10),
            size: 20,
            color: Color::Named(NamedColor::Blue),
            alpha: Some(50),
            font: Some("serif".to_string()),
        }))
    );
    assert_eq!(
        one_filter("watermark(logo.png,repeat,bottom,128,0.25)"),
        Some(Filter::Watermark(WatermarkParams {
            image: "logo.png".to_string(),
            x: WatermarkPosition::Repeat,
            y: WatermarkPosition::Bottom,
            alpha: 128,
            w_ratio: Some(num("0.25")),
            h_ratio: None,
        }))
    );
}

#[test]
fn filter_from_reads_lower_case_kind() {
    assert_eq!(filter_from(&chars("grayscale"), &chars("")), Some(Filter::Grayscale));
    assert_eq!(filter_from(&chars("GRAYSCALE"), &chars("")), None);
    assert_eq!(filter_from(&chars("rotate"), &chars("x")), None);
}

#[test]
fn padding_values_by_side() {
    assert_eq!(PaddingParams::All(3).get_values(), (3, 3, 3, 3));
    assert_eq!(PaddingParams::VerticalHorizontal(1, 2).get_values(), (2, 2, 1, 1));
    assert_eq!(PaddingParams::FourSides(1, 2, 3, 4).get_values(), (4, 2, 1, 3));
}

#[test]
fn image_type_names_and_content_types() {
    assert_eq!(ImageType::WEBP.as_str(), "webp");
    assert_eq!(ImageType::JP2K.as_str(), "jp2k");
    assert!(ImageType::GIF.is_animation_supported());
    assert!(ImageType::WEBP.is_animation_supported());
    assert!(!ImageType::PNG.is_animation_supported());
    assert_eq!(ImageType::PNG.to_content_type(), "image/png");
}

#[test]
fn decimal_numbers_are_canonical() {
    assert_eq!(num("10.0"), num("10"));
    assert_eq!(num("-0.0"), num("0"));
    assert_eq!(num("007.50").as_str(), "7.5");
    assert!(F32::parse("1.").is_none());
    assert!(F32::parse("x").is_none());
    assert!(num("2.5").same(&F32::from_parts(false, &['2'], &['5', '0'])));
    assert_eq!(F32::from_int(-12).as_str(), "-12");
}

#[test]
fn decimal_text_reads_back() {
    for s in ["007.50", "-0.000", "12", "-3.25", "0.1"] {
        let f = num(s);
        assert_eq!(F32::parse(f.as_str()), Some(f.clone()));
    }
}
