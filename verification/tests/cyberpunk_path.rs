use imagor_rs::cyberpunkpath::generate::{generate, generate_path, generate_unsafe, Signer};
use imagor_rs::cyberpunkpath::hasher::{
    digest_result_storage_hasher, digest_storage_hasher, size_suffix_result_storage_hasher,
    suffix_result_storage_hasher,
};
use imagor_rs::cyberpunkpath::params::{Filter, HAlign, Params, TrimBy, VAlign, F32};
use imagor_rs::cyberpunkpath::parse::{parse_filters, parse_path, path_crashes};

fn num(s: &str) -> F32 {
    F32::parse(s).unwrap()
}

fn filter(name: &str, args: Option<&str>) -> Filter {
    Filter { name: Some(name.to_string()), args: args.map(|a| a.to_string()) }
}

#[test]
fn test_parse_generate() {
    let tests = vec![
        (
            "non url image",
            "meta/trim/10x11:12x13/fit-in/-300x-200/left/top/smart/filters:some_filter()/img",
            Params {
                path: Some("meta/trim/10x11:12x13/fit-in/-300x-200/left/top/smart/filters:some_filter()/img".to_string()),
                image: Some("img".to_string()),
                trim: true,
                trim_by: TrimBy::TopLeft,
                crop_left: Some(num("10.0")),
                crop_top: Some(num("11.0")),
                crop_right: Some(num("12.0")),
                crop_bottom: Some(num("13.0")),
                width: Some(300),
                height: Some(200),
                meta: true,
                h_flip: true,
                v_flip: true,
                h_align: Some(HAlign::Left),
                v_align: Some(VAlign::Top),
                smart: true,
                fit_in: true,
                filters: vec![Filter { name: Some("some_filter".to_string()), args: None }],
                ..Default::default()
            },
        ),
        (
            "url image",
            "meta/trim:bottom-right:100/10x11:12x13/fit-in/-300x-200/left/top/smart/filters:some_filter()/s.glbimg.com/es/ge/f/original/2011/03/29/orlandosilva_60.jpg",
            Params {
                path: Some("meta/trim:bottom-right:100/10x11:12x13/fit-in/-300x-200/left/top/smart/filters:some_filter()/s.glbimg.com/es/ge/f/original/2011/03/29/orlandosilva_60.jpg".to_string()),
                image: Some("s.glbimg.com/es/ge/f/original/2011/03/29/orlandosilva_60.jpg".to_string()),
                trim: true,
                trim_by: TrimBy::BottomRight,
                trim_tolerance: Some(num("100.0")),
                crop_left: Some(num("10.0")),
                crop_top: Some(num("11.0")),
                crop_right: Some(num("12.0")),
                crop_bottom: Some(num("13.0")),
                width: Some(300),
                height: Some(200),
                meta: true,
                h_flip: true,
                v_flip: true,
                h_align: Some(HAlign::Left),
                v_align: Some(VAlign::Top),
                smart: true,
                fit_in: true,
                filters: vec![Filter { name: Some("some_filter".to_string()), args: None }],
                ..Default::default()
            },
        ),
    ];

    for (name, uri, expected_params) in tests {
        let (_, result) = parse_path(uri).unwrap();
        assert_eq!(result, expected_params, "Failed test: {}", name);
    }
}

#[test]
fn test_parse_filters() {
    let test_cases = vec![
        (
            "filters:watermark(s.glbimg.com/filters:label(abc):watermark(aaa.com/fit-in/filters:aaa(bbb))/aaa.jpg,0,0,0):brightness(-50):grayscale()/some/example/img",
            (
                "some/example/img",
                vec![
                    filter("watermark", Some("s.glbimg.com/filters:label(abc):watermark(aaa.com/fit-in/filters:aaa(bbb))/aaa.jpg,0,0,0")),
                    filter("brightness", Some("-50")),
                    filter("grayscale", None),
                ],
            ),
        ),
        ("some/example/img", ("some/example/img", vec![])),
        (
            "filters:watermark(s.glbimg.com/filters:label(abc):watermark(aaa.com/fit-in/filters:aaa(bbb))/aaa.jpg,0,0,0):brightness(-50):grayscale()",
            (
                "",
                vec![
                    filter("watermark", Some("s.glbimg.com/filters:label(abc):watermark(aaa.com/fit-in/filters:aaa(bbb))/aaa.jpg,0,0,0")),
                    filter("brightness", Some("-50")),
                    filter("grayscale", None),
                ],
            ),
        ),
    ];

    for (input, expected) in test_cases {
        let result = parse_filters(input).unwrap();
        assert_eq!(result, expected);
    }
}

#[test]
fn cyberpunk_path_needs_its_fixed_parts() {
    assert!(parse_path("trim/fit-in/1x1/smart/img").is_err());
    assert!(parse_path("meta/trim/fit-in/1x1/img").is_err());
    assert!(parse_path("meta/trim/fit-in/1x1/smart/").is_err());
    assert!(parse_path("meta/trim/fit-in/1x1/smart/img").is_ok());
}

#[test]
fn cyberpunk_oversized_dimension_crashes() {
    assert!(path_crashes("meta/trim/fit-in/99999999999x1/smart/img"));
    assert!(path_crashes("meta/trim/fit-in/-2147483648x1/smart/img"));
    assert!(!path_crashes("meta/trim/fit-in/2147483647x1/smart/img"));
    assert!(!path_crashes("trim/fit-in/99999999999x1/smart/img"));
}

fn sample() -> Params {
    Params {
        meta: true,
        trim: true,
        trim_by: TrimBy::BottomRight,
        trim_tolerance: Some(num("5")),
        crop_left: Some(num("1.5")),
        crop_bottom: Some(num("4")),
        fit_in: true,
        width: Some(-300),
        height: Some(200),
        v_flip: true,
        h_align: Some(HAlign::Right),
        v_align: Some(VAlign::Bottom),
        smart: true,
        filters: vec![filter("quality", Some("80")), Filter::default(), filter("grayscale", Some(""))],
        image: Some("img.png".to_string()),
        ..Default::default()
    }
}

#[test]
fn generate_writes_each_set_part() {
    assert_eq!(
        generate_path(&sample()),
        "meta/trim:bottom-right:5/1.5x0:0x4/fit-in/-300-200/bottom/right/smart/filters:quality(80):grayscale()/img.png"
    );
}

#[test]
fn generate_always_writes_trim_for_known_corners() {
    let p = Params { image: Some("a.jpg".to_string()), ..Default::default() };
    assert_eq!(generate_path(&p), "trim/a.jpg");
}

#[test]
fn generate_escapes_images_that_read_as_parameters() {
    let p = Params { image: Some("smart/a b?.jpg".to_string()), ..Default::default() };
    assert_eq!(generate_path(&p), "trim/=smart%2Fa+b%3F.jpg");
}

#[test]
fn generate_padding_and_stretch() {
    let p = Params {
        stretch: true,
        padding_left: Some(3),
        padding_top: Some(4),
        padding_right: Some(3),
        padding_bottom: Some(4),
        ..Default::default()
    };
    assert_eq!(generate_path(&p), "trim/stretch/00/3x4");
    let q = Params { padding_left: Some(1), padding_bottom: Some(-2), ..Default::default() };
    assert_eq!(generate_path(&q), "trim/00/1x0:0x-2");
}

struct Fixed;

impl Signer for Fixed {
    fn sign(&self, _path: &str) -> String {
        "SIG".to_string()
    }
}

#[test]
fn generate_signs_or_marks_unsafe() {
    let p = Params { image: Some("a.jpg".to_string()), ..Default::default() };
    assert_eq!(generate_unsafe(&p), "unsafe/trim/a.jpg");
    assert_eq!(generate(&p, None), "unsafe/trim/a.jpg");
    assert_eq!(generate(&p, Some(&Fixed)), "SIG/trim/a.jpg");
}

#[test]
fn cyberpunk_storage_keys() {
    assert_eq!(digest_storage_hasher("img"), "97/8e/a7af39ad5fefb6bfbc82a1c5023494bdade2");
    let uri = "meta/trim/10x11:12x13/fit-in/-300x-200/left/top/smart/filters:some_filter()/img";
    let (_, p) = parse_path(uri).unwrap();
    assert_eq!(digest_result_storage_hasher(&p), "22/30/43a9355dc22fa9a04809257d29f1edee2674");
    assert_eq!(suffix_result_storage_hasher(&p), "img.223043a9355dc22fa9a0");
    assert_eq!(size_suffix_result_storage_hasher(&p), "img.223043a9355dc22fa9a0_300x200");
}

#[test]
fn cyberpunk_suffix_key_uses_format_filter() {
    let p = Params {
        path: Some("a/b.png".to_string()),
        image: Some("a/b.png".to_string()),
        filters: vec![filter("format", Some("webp"))],
        ..Default::default()
    };
    assert_eq!(suffix_result_storage_hasher(&p), "a/b.7f9c894b6fccf26aac3e.webp");
    let m = Params { meta: true, ..p.clone() };
    assert_eq!(suffix_result_storage_hasher(&m), "a/b.7f9c894b6fccf26aac3e.json");
}

#[test]
fn halign_and_valign_names() {
    assert_eq!(HAlign::parse("left"), Ok(HAlign::Left));
    assert_eq!(VAlign::parse("BOTTOM"), Ok(VAlign::Bottom));
    assert_eq!(VAlign::parse("middle"), Err("Invalid VAlign value: middle".to_string()));
    assert!(HAlign::parse("top").is_err());
    assert!(VAlign::parse("left").is_err());
    assert_eq!(HAlign::Center.as_str(), "center");
    assert_eq!(VAlign::Bottom.as_str(), "bottom");
}

#[test]
fn cyberpunk_size_suffix_without_size_is_suffix() {
    let p = Params {
        path: Some("a/b.png".to_string()),
        image: Some("a/b.png".to_string()),
        ..Default::default()
    };
    assert_eq!(size_suffix_result_storage_hasher(&p), suffix_result_storage_hasher(&p));
    assert_eq!(suffix_result_storage_hasher(&p), "a/b.7f9c894b6fccf26aac3e.png");
}

#[test]
fn cyberpunk_result_key_is_key_of_path() {
    let p = Params {
        path: Some("a/b.png".to_string()),
        image: Some("other.png".to_string()),
        ..Default::default()
    };
    assert_eq!(digest_result_storage_hasher(&p), digest_storage_hasher("a/b.png"));
    assert_eq!(digest_result_storage_hasher(&p), "7f/9c/894b6fccf26aac3e8796263d363abe8cb84e");
}

#[test]
fn cyberpunk_result_key_without_path_uses_generated_path() {
    let p = Params { image: Some("img".to_string()), ..Default::default() };
    assert_eq!(digest_result_storage_hasher(&p), digest_storage_hasher(&generate_path(&p)));
}
