use imagor_rs::imagorpath::color::{Color, NamedColor};
use imagor_rs::imagorpath::values::parse_color;

fn chars(s: &str) -> Vec<char> {
    s.chars().collect()
}

#[test]
fn test_color_from_str() {
    assert_eq!(Color::from_str("red"), Color::Named(NamedColor::Red));
    assert_eq!(
        Color::from_str("#ff0000"),
        Color::Hex("#ff0000".to_string())
    );
    assert_eq!(Color::from_str("255,0,0"), Color::Rgb(255, 0, 0));
    assert_eq!(Color::from_str("auto"), Color::Auto);
    assert_eq!(Color::from_str("blur"), Color::Blur);
    assert_eq!(Color::from_str("none"), Color::NoColor);
}

#[test]
fn test_color_to_rgb() {
    assert_eq!(Color::Named(NamedColor::Red).to_rgb(), Some((255, 0, 0)));
    assert_eq!(
        Color::Hex("#ff0000".to_string()).to_rgb(),
        Some((255, 0, 0))
    );
    assert_eq!(Color::Rgb(255, 0, 0).to_rgb(), Some((255, 0, 0)));
    assert_eq!(Color::Auto.to_rgb(), None);
    assert_eq!(Color::Blur.to_rgb(), None);
    assert_eq!(Color::NoColor.to_rgb(), None);
}

#[test]
fn color_names_ignore_case() {
    assert_eq!(Color::from_str("AliceBlue"), Color::Named(NamedColor::AliceBlue));
    assert_eq!(Color::from_str("aliceblue"), Color::Named(NamedColor::AliceBlue));
    assert_eq!(Color::from_str("YELLOWGREEN"), Color::Named(NamedColor::YellowGreen));
    assert_eq!(NamedColor::from_str("rebeccapurple"), Some(NamedColor::RebeccaPurple));
    assert_eq!(NamedColor::from_str("notacolor"), None);
}

#[test]
fn color_keywords_ignore_case() {
    assert_eq!(Color::from_str("AUTO"), Color::Auto);
    assert_eq!(Color::from_str("Blur"), Color::Blur);
    assert_eq!(Color::from_str("NONE"), Color::NoColor);
}

#[test]
fn color_text_that_is_not_one_colour_is_none() {
    assert_eq!(Color::from_str("notacolor"), Color::NoColor);
    assert_eq!(Color::from_str("255,0"), Color::NoColor);
    assert_eq!(Color::from_str("256,0,0"), Color::NoColor);
    assert_eq!(Color::from_str("red5"), Color::NoColor);
    assert_eq!(Color::from_str(""), Color::NoColor);
    assert_eq!(Color::from_str("#ff00"), Color::NoColor);
}

#[test]
fn hex_colour_in_grammar_drops_the_hash() {
    let s = chars("#a0B1c2,rest");
    assert_eq!(parse_color(&s, 0), Some((7, Color::Hex("a0B1c2".to_string()))));
}

#[test]
fn unknown_name_in_grammar_reads_as_none() {
    let s = chars("notacolor,1");
    assert_eq!(parse_color(&s, 0), Some((9, Color::NoColor)));
    let s = chars("1,2,3)");
    assert_eq!(parse_color(&s, 0), Some((5, Color::Rgb(1, 2, 3))));
    let s = chars(",x");
    assert_eq!(parse_color(&s, 0), None);
}

#[test]
fn named_colour_rgb_values() {
    assert_eq!(NamedColor::Cyan.to_rgb(), Color::Rgb(0, 255, 255));
    assert_eq!(NamedColor::RebeccaPurple.to_rgb(), Color::Rgb(0x66, 0x33, 0x99));
    assert_eq!(NamedColor::AliceBlue.name(), "AliceBlue");
}

#[test]
fn colour_text_round_trips() {
    for c in [
        Color::Named(NamedColor::DarkSlateGray),
        Color::Rgb(1, 22, 255),
        Color::Auto,
        Color::Blur,
        Color::NoColor,
        Color::Hex("#0a0b0c".to_string()),
    ] {
        assert_eq!(Color::from_str(&c.to_text()), c);
    }
}

#[test]
fn hex_to_rgb_with_and_without_hash() {
    assert_eq!(Color::Hex("00ff80".to_string()).to_rgb(), Some((0, 255, 128)));
    assert_eq!(Color::Hex("##00ff80".to_string()).to_rgb(), Some((0, 255, 128)));
    assert_eq!(Color::Hex("#00ff8".to_string()).to_rgb(), None);
    assert_eq!(Color::Hex("#zzff80".to_string()).to_rgb(), None);
}

#[test]
fn auto_colour_has_no_components() {
    assert_eq!(Color::Auto.to_rgb(), None);
    assert_eq!(Color::Blur.to_rgb(), None);
}
