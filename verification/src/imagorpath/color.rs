//! Colours a path can name: CSS colour names, `#rrggbb`, `r,g,b`, and the
//! special values `auto`, `blur` and `none`.
use vstd::prelude::*;
use vstd::utf8::encode_utf8;
use crate::text::{eq_ignore_ascii_case, lower_char, push_str, str_chars, string_of, char_to_lower, push_nat};

verus! {

/// A CSS colour name.
#[derive(Debug, Clone, Copy, PartialEq, Eq, Structural)]
pub enum NamedColor {
    AliceBlue,
    AntiqueWhite,
    Aqua,
    Aquamarine,
    Azure,
    Beige,
    Bisque,
    Black,
    BlanchedAlmond,
    Blue,
    BlueViolet,
    Brown,
    BurlyWood,
    CadetBlue,
    Chartreuse,
    Chocolate,
    Coral,
    CornflowerBlue,
    Cornsilk,
    Crimson,
    Cyan,
    DarkBlue,
    DarkCyan,
    DarkGoldenRod,
    DarkGray,
    DarkGreen,
    DarkKhaki,
    DarkMagenta,
    DarkOliveGreen,
    DarkOrange,
    DarkOrchid,
    DarkRed,
    DarkSalmon,
    DarkSeaGreen,
    DarkSlateBlue,
    DarkSlateGray,
    DarkTurquoise,
    DarkViolet,
    DeepPink,
    DeepSkyBlue,
    DimGray,
    DodgerBlue,
    FireBrick,
    FloralWhite,
    ForestGreen,
    Fuchsia,
    Gainsboro,
    GhostWhite,
    Gold,
    GoldenRod,
    Gray,
    Green,
    GreenYellow,
    HoneyDew,
    HotPink,
    IndianRed,
    Indigo,
    Ivory,
    Khaki,
    Lavender,
    LavenderBlush,
    LawnGreen,
    LemonChiffon,
    LightBlue,
    LightCoral,
    LightCyan,
    LightGoldenRodYellow,
    LightGray,
    LightGreen,
    LightPink,
    LightSalmon,
    LightSeaGreen,
    LightSkyBlue,
    LightSlateGray,
    LightSteelBlue,
    LightYellow,
    Lime,
    LimeGreen,
    Linen,
    Magenta,
    Maroon,
    MediumAquaMarine,
    MediumBlue,
    MediumOrchid,
    MediumPurple,
    MediumSeaGreen,
    MediumSlateBlue,
    MediumSpringGreen,
    MediumTurquoise,
    MediumVioletRed,
    MidnightBlue,
    MintCream,
    MistyRose,
    Moccasin,
    NavajoWhite,
    Navy,
    OldLace,
    Olive,
    OliveDrab,
    Orange,
    OrangeRed,
    Orchid,
    PaleGoldenRod,
    PaleGreen,
    PaleTurquoise,
    PaleVioletRed,
    PapayaWhip,
    PeachPuff,
    Peru,
    Pink,
    Plum,
    PowderBlue,
    Purple,
    RebeccaPurple,
    Red,
    RosyBrown,
    RoyalBlue,
    SaddleBrown,
    Salmon,
    SandyBrown,
    SeaGreen,
    SeaShell,
    Sienna,
    Silver,
    SkyBlue,
    SlateBlue,
    SlateGray,
    Snow,
    SpringGreen,
    SteelBlue,
    Tan,
    Teal,
    Thistle,
    Tomato,
    Turquoise,
    Violet,
    Wheat,
    White,
    WhiteSmoke,
    Yellow,
    YellowGreen,
}

/// Number of colour names.
pub const NAMED_COLOR_COUNT: usize = 141;

/// The name of a colour as it is written.
pub open spec fn named_color_name(c: NamedColor) -> Seq<char> {
    match c {
        NamedColor::AliceBlue => "AliceBlue"@,
        NamedColor::AntiqueWhite => "AntiqueWhite"@,
        NamedColor::Aqua => "Aqua"@,
        NamedColor::Aquamarine => "Aquamarine"@,
        NamedColor::Azure => "Azure"@,
        NamedColor::Beige => "Beige"@,
        NamedColor::Bisque => "Bisque"@,
        NamedColor::Black => "Black"@,
        NamedColor::BlanchedAlmond => "BlanchedAlmond"@,
        NamedColor::Blue => "Blue"@,
        NamedColor::BlueViolet => "BlueViolet"@,
        NamedColor::Brown => "Brown"@,
        NamedColor::BurlyWood => "BurlyWood"@,
        NamedColor::CadetBlue => "CadetBlue"@,
        NamedColor::Chartreuse => "Chartreuse"@,
        NamedColor::Chocolate => "Chocolate"@,
        NamedColor::Coral => "Coral"@,
        NamedColor::CornflowerBlue => "CornflowerBlue"@,
        NamedColor::Cornsilk => "Cornsilk"@,
        NamedColor::Crimson => "Crimson"@,
        NamedColor::Cyan => "Cyan"@,
        NamedColor::DarkBlue => "DarkBlue"@,
        NamedColor::DarkCyan => "DarkCyan"@,
        NamedColor::DarkGoldenRod => "DarkGoldenRod"@,
        NamedColor::DarkGray => "DarkGray"@,
        NamedColor::DarkGreen => "DarkGreen"@,
        NamedColor::DarkKhaki => "DarkKhaki"@,
        NamedColor::DarkMagenta => "DarkMagenta"@,
        NamedColor::DarkOliveGreen => "DarkOliveGreen"@,
        NamedColor::DarkOrange => "DarkOrange"@,
        NamedColor::DarkOrchid => "DarkOrchid"@,
        NamedColor::DarkRed => "DarkRed"@,
        NamedColor::DarkSalmon => "DarkSalmon"@,
        NamedColor::DarkSeaGreen => "DarkSeaGreen"@,
        NamedColor::DarkSlateBlue => "DarkSlateBlue"@,
        NamedColor::DarkSlateGray => "DarkSlateGray"@,
        NamedColor::DarkTurquoise => "DarkTurquoise"@,
        NamedColor::DarkViolet => "DarkViolet"@,
        NamedColor::DeepPink => "DeepPink"@,
        NamedColor::DeepSkyBlue => "DeepSkyBlue"@,
        NamedColor::DimGray => "DimGray"@,
        NamedColor::DodgerBlue => "DodgerBlue"@,
        NamedColor::FireBrick => "FireBrick"@,
        NamedColor::FloralWhite => "FloralWhite"@,
        NamedColor::ForestGreen => "ForestGreen"@,
        NamedColor::Fuchsia => "Fuchsia"@,
        NamedColor::Gainsboro => "Gainsboro"@,
        NamedColor::GhostWhite => "GhostWhite"@,
        NamedColor::Gold => "Gold"@,
        NamedColor::GoldenRod => "GoldenRod"@,
        NamedColor::Gray => "Gray"@,
        NamedColor::Green => "Green"@,
        NamedColor::GreenYellow => "GreenYellow"@,
        NamedColor::HoneyDew => "HoneyDew"@,
        NamedColor::HotPink => "HotPink"@,
        NamedColor::IndianRed => "IndianRed"@,
        NamedColor::Indigo => "Indigo"@,
        NamedColor::Ivory => "Ivory"@,
        NamedColor::Khaki => "Khaki"@,
        NamedColor::Lavender => "Lavender"@,
        NamedColor::LavenderBlush => "LavenderBlush"@,
        NamedColor::LawnGreen => "LawnGreen"@,
        NamedColor::LemonChiffon => "LemonChiffon"@,
        NamedColor::LightBlue => "LightBlue"@,
        NamedColor::LightCoral => "LightCoral"@,
        NamedColor::LightCyan => "LightCyan"@,
        NamedColor::LightGoldenRodYellow => "LightGoldenRodYellow"@,
        NamedColor::LightGray => "LightGray"@,
        NamedColor::LightGreen => "LightGreen"@,
        NamedColor::LightPink => "LightPink"@,
        NamedColor::LightSalmon => "LightSalmon"@,
        NamedColor::LightSeaGreen => "LightSeaGreen"@,
        NamedColor::LightSkyBlue => "LightSkyBlue"@,
        NamedColor::LightSlateGray => "LightSlateGray"@,
        NamedColor::LightSteelBlue => "LightSteelBlue"@,
        NamedColor::LightYellow => "LightYellow"@,
        NamedColor::Lime => "Lime"@,
        NamedColor::LimeGreen => "LimeGreen"@,
        NamedColor::Linen => "Linen"@,
        NamedColor::Magenta => "Magenta"@,
        NamedColor::Maroon => "Maroon"@,
        NamedColor::MediumAquaMarine => "MediumAquaMarine"@,
        NamedColor::MediumBlue => "MediumBlue"@,
        NamedColor::MediumOrchid => "MediumOrchid"@,
        NamedColor::MediumPurple => "MediumPurple"@,
        NamedColor::MediumSeaGreen => "MediumSeaGreen"@,
        NamedColor::MediumSlateBlue => "MediumSlateBlue"@,
        NamedColor::MediumSpringGreen => "MediumSpringGreen"@,
        NamedColor::MediumTurquoise => "MediumTurquoise"@,
        NamedColor::MediumVioletRed => "MediumVioletRed"@,
        NamedColor::MidnightBlue => "MidnightBlue"@,
        NamedColor::MintCream => "MintCream"@,
        NamedColor::MistyRose => "MistyRose"@,
        NamedColor::Moccasin => "Moccasin"@,
        NamedColor::NavajoWhite => "NavajoWhite"@,
        NamedColor::Navy => "Navy"@,
        NamedColor::OldLace => "OldLace"@,
        NamedColor::Olive => "Olive"@,
        NamedColor::OliveDrab => "OliveDrab"@,
        NamedColor::Orange => "Orange"@,
        NamedColor::OrangeRed => "OrangeRed"@,
        NamedColor::Orchid => "Orchid"@,
        NamedColor::PaleGoldenRod => "PaleGoldenRod"@,
        NamedColor::PaleGreen => "PaleGreen"@,
        NamedColor::PaleTurquoise => "PaleTurquoise"@,
        NamedColor::PaleVioletRed => "PaleVioletRed"@,
        NamedColor::PapayaWhip => "PapayaWhip"@,
        NamedColor::PeachPuff => "PeachPuff"@,
        NamedColor::Peru => "Peru"@,
        NamedColor::Pink => "Pink"@,
        NamedColor::Plum => "Plum"@,
        NamedColor::PowderBlue => "PowderBlue"@,
        NamedColor::Purple => "Purple"@,
        NamedColor::RebeccaPurple => "RebeccaPurple"@,
        NamedColor::Red => "Red"@,
        NamedColor::RosyBrown => "RosyBrown"@,
        NamedColor::RoyalBlue => "RoyalBlue"@,
        NamedColor::SaddleBrown => "SaddleBrown"@,
        NamedColor::Salmon => "Salmon"@,
        NamedColor::SandyBrown => "SandyBrown"@,
        NamedColor::SeaGreen => "SeaGreen"@,
        NamedColor::SeaShell => "SeaShell"@,
        NamedColor::Sienna => "Sienna"@,
        NamedColor::Silver => "Silver"@,
        NamedColor::SkyBlue => "SkyBlue"@,
        NamedColor::SlateBlue => "SlateBlue"@,
        NamedColor::SlateGray => "SlateGray"@,
        NamedColor::Snow => "Snow"@,
        NamedColor::SpringGreen => "SpringGreen"@,
        NamedColor::SteelBlue => "SteelBlue"@,
        NamedColor::Tan => "Tan"@,
        NamedColor::Teal => "Teal"@,
        NamedColor::Thistle => "Thistle"@,
        NamedColor::Tomato => "Tomato"@,
        NamedColor::Turquoise => "Turquoise"@,
        NamedColor::Violet => "Violet"@,
        NamedColor::Wheat => "Wheat"@,
        NamedColor::White => "White"@,
        NamedColor::WhiteSmoke => "WhiteSmoke"@,
        NamedColor::Yellow => "Yellow"@,
        NamedColor::YellowGreen => "YellowGreen"@,
    }
}

/// The red, green and blue components of a colour.
pub open spec fn named_color_rgb(c: NamedColor) -> (u8, u8, u8) {
    match c {
        NamedColor::AliceBlue => (0xf0, 0xf8, 0xff),
        NamedColor::AntiqueWhite => (0xfa, 0xeb, 0xd7),
        NamedColor::Aqua => (0x00, 0xff, 0xff),
        NamedColor::Aquamarine => (0x7f, 0xff, 0xd4),
        NamedColor::Azure => (0xf0, 0xff, 0xff),
        NamedColor::Beige => (0xf5, 0xf5, 0xdc),
        NamedColor::Bisque => (0xff, 0xe4, 0xc4),
        NamedColor::Black => (0x00, 0x00, 0x00),
        NamedColor::BlanchedAlmond => (0xff, 0xeb, 0xcd),
        NamedColor::Blue => (0x00, 0x00, 0xff),
        NamedColor::BlueViolet => (0x8a, 0x2b, 0xe2),
        NamedColor::Brown => (0xa5, 0x2a, 0x2a),
        NamedColor::BurlyWood => (0xde, 0xb8, 0x87),
        NamedColor::CadetBlue => (0x5f, 0x9e, 0xa0),
        NamedColor::Chartreuse => (0x7f, 0xff, 0x00),
        NamedColor::Chocolate => (0xd2, 0x69, 0x1e),
        NamedColor::Coral => (0xff, 0x7f, 0x50),
        NamedColor::CornflowerBlue => (0x64, 0x95, 0xed),
        NamedColor::Cornsilk => (0xff, 0xf8, 0xdc),
        NamedColor::Crimson => (0xdc, 0x14, 0x3c),
        NamedColor::Cyan => (0x00, 0xff, 0xff),
        NamedColor::DarkBlue => (0x00, 0x00, 0x8b),
        NamedColor::DarkCyan => (0x00, 0x8b, 0x8b),
        NamedColor::DarkGoldenRod => (0xb8, 0x86, 0x0b),
        NamedColor::DarkGray => (0xa9, 0xa9, 0xa9),
        NamedColor::DarkGreen => (0x00, 0x64, 0x00),
        NamedColor::DarkKhaki => (0xbd, 0xb7, 0x6b),
        NamedColor::DarkMagenta => (0x8b, 0x00, 0x8b),
        NamedColor::DarkOliveGreen => (0x55, 0x6b, 0x2f),
        NamedColor::DarkOrange => (0xff, 0x8c, 0x00),
        NamedColor::DarkOrchid => (0x99, 0x32, 0xcc),
        NamedColor::DarkRed => (0x8b, 0x00, 0x00),
        NamedColor::DarkSalmon => (0xe9, 0x96, 0x7a),
        NamedColor::DarkSeaGreen => (0x8f, 0xbc, 0x8f),
        NamedColor::DarkSlateBlue => (0x48, 0x3d, 0x8b),
        NamedColor::DarkSlateGray => (0x2f, 0x4f, 0x4f),
        NamedColor::DarkTurquoise => (0x00, 0xce, 0xd1),
        NamedColor::DarkViolet => (0x94, 0x00, 0xd3),
        NamedColor::DeepPink => (0xff, 0x14, 0x93),
        NamedColor::DeepSkyBlue => (0x00, 0xbf, 0xff),
        NamedColor::DimGray => (0x69, 0x69, 0x69),
        NamedColor::DodgerBlue => (0x1e, 0x90, 0xff),
        NamedColor::FireBrick => (0xb2, 0x22, 0x22),
        NamedColor::FloralWhite => (0xff, 0xfa, 0xf0),
        NamedColor::ForestGreen => (0x22, 0x8b, 0x22),
        NamedColor::Fuchsia => (0xff, 0x00, 0xff),
        NamedColor::Gainsboro => (0xdc, 0xdc, 0xdc),
        NamedColor::GhostWhite => (0xf8, 0xf8, 0xff),
        NamedColor::Gold => (0xff, 0xd7, 0x00),
        NamedColor::GoldenRod => (0xda, 0xa5, 0x20),
        NamedColor::Gray => (0x80, 0x80, 0x80),
        NamedColor::Green => (0x00, 0x80, 0x00),
        NamedColor::GreenYellow => (0xad, 0xff, 0x2f),
        NamedColor::HoneyDew => (0xf0, 0xff, 0xf0),
        NamedColor::HotPink => (0xff, 0x69, 0xb4),
        NamedColor::IndianRed => (0xcd, 0x5c, 0x5c),
        NamedColor::Indigo => (0x4b, 0x00, 0x82),
        NamedColor::Ivory => (0xff, 0xff, 0xf0),
        NamedColor::Khaki => (0xf0, 0xe6, 0x8c),
        NamedColor::Lavender => (0xe6, 0xe6, 0xfa),
        NamedColor::LavenderBlush => (0xff, 0xf0, 0xf5),
        NamedColor::LawnGreen => (0x7c, 0xfc, 0x00),
        NamedColor::LemonChiffon => (0xff, 0xfa, 0xcd),
        NamedColor::LightBlue => (0xad, 0xd8, 0xe6),
        NamedColor::LightCoral => (0xf0, 0x80, 0x80),
        NamedColor::LightCyan => (0xe0, 0xff, 0xff),
        NamedColor::LightGoldenRodYellow => (0xfa, 0xfa, 0xd2),
        NamedColor::LightGray => (0xd3, 0xd3, 0xd3),
        NamedColor::LightGreen => (0x90, 0xee, 0x90),
        NamedColor::LightPink => (0xff, 0xb6, 0xc1),
        NamedColor::LightSalmon => (0xff, 0xa0, 0x7a),
        NamedColor::LightSeaGreen => (0x20, 0xb2, 0xaa),
        NamedColor::LightSkyBlue => (0x87, 0xce, 0xfa),
        NamedColor::LightSlateGray => (0x77, 0x88, 0x99),
        NamedColor::LightSteelBlue => (0xb0, 0xc4, 0xde),
        NamedColor::LightYellow => (0xff, 0xff, 0xe0),
        NamedColor::Lime => (0x00, 0xff, 0x00),
        NamedColor::LimeGreen => (0x32, 0xcd, 0x32),
        NamedColor::Linen => (0xfa, 0xf0, 0xe6),
        NamedColor::Magenta => (0xff, 0x00, 0xff),
        NamedColor::Maroon => (0x80, 0x00, 0x00),
        NamedColor::MediumAquaMarine => (0x66, 0xcd, 0xaa),
        NamedColor::MediumBlue => (0x00, 0x00, 0xcd),
        NamedColor::MediumOrchid => (0xba, 0x55, 0xd3),
        NamedColor::MediumPurple => (0x93, 0x70, 0xdb),
        NamedColor::MediumSeaGreen => (0x3c, 0xb3, 0x71),
        NamedColor::MediumSlateBlue => (0x7b, 0x68, 0xee),
        NamedColor::MediumSpringGreen => (0x00, 0xfa, 0x9a),
        NamedColor::MediumTurquoise => (0x48, 0xd1, 0xcc),
        NamedColor::MediumVioletRed => (0xc7, 0x15, 0x85),
        NamedColor::MidnightBlue => (0x19, 0x19, 0x70),
        NamedColor::MintCream => (0xf5, 0xff, 0xfa),
        NamedColor::MistyRose => (0xff, 0xe4, 0xe1),
        NamedColor::Moccasin => (0xff, 0xe4, 0xb5),
        NamedColor::NavajoWhite => (0xff, 0xde, 0xad),
        NamedColor::Navy => (0x00, 0x00, 0x80),
        NamedColor::OldLace => (0xfd, 0xf5, 0xe6),
        NamedColor::Olive => (0x80, 0x80, 0x00),
        NamedColor::OliveDrab => (0x6b, 0x8e, 0x23),
        NamedColor::Orange => (0xff, 0xa5, 0x00),
        NamedColor::OrangeRed => (0xff, 0x45, 0x00),
        NamedColor::Orchid => (0xda, 0x70, 0xd6),
        NamedColor::PaleGoldenRod => (0xee, 0xe8, 0xaa),
        NamedColor::PaleGreen => (0x98, 0xfb, 0x98),
        NamedColor::PaleTurquoise => (0xaf, 0xee, 0xee),
        NamedColor::PaleVioletRed => (0xdb, 0x70, 0x93),
        NamedColor::PapayaWhip => (0xff, 0xef, 0xd5),
        NamedColor::PeachPuff => (0xff, 0xda, 0xb9),
        NamedColor::Peru => (0xcd, 0x85, 0x3f),
        NamedColor::Pink => (0xff, 0xc0, 0xcb),
        NamedColor::Plum => (0xdd, 0xa0, 0xdd),
        NamedColor::PowderBlue => (0xb0, 0xe0, 0xe6),
        NamedColor::Purple => (0x80, 0x00, 0x80),
        NamedColor::RebeccaPurple => (0x66, 0x33, 0x99),
        NamedColor::Red => (0xff, 0x00, 0x00),
        NamedColor::RosyBrown => (0xbc, 0x8f, 0x8f),
        NamedColor::RoyalBlue => (0x41, 0x69, 0xe1),
        NamedColor::SaddleBrown => (0x8b, 0x45, 0x13),
        NamedColor::Salmon => (0xfa, 0x80, 0x72),
        NamedColor::SandyBrown => (0xf4, 0xa4, 0x60),
        NamedColor::SeaGreen => (0x2e, 0x8b, 0x57),
        NamedColor::SeaShell => (0xff, 0xf5, 0xee),
        NamedColor::Sienna => (0xa0, 0x52, 0x2d),
        NamedColor::Silver => (0xc0, 0xc0, 0xc0),
        NamedColor::SkyBlue => (0x87, 0xce, 0xeb),
        NamedColor::SlateBlue => (0x6a, 0x5a, 0xcd),
        NamedColor::SlateGray => (0x70, 0x80, 0x90),
        NamedColor::Snow => (0xff, 0xfa, 0xfa),
        NamedColor::SpringGreen => (0x00, 0xff, 0x7f),
        NamedColor::SteelBlue => (0x46, 0x82, 0xb4),
        NamedColor::Tan => (0xd2, 0xb4, 0x8c),
        NamedColor::Teal => (0x00, 0x80, 0x80),
        NamedColor::Thistle => (0xd8, 0xbf, 0xd8),
        NamedColor::Tomato => (0xff, 0x63, 0x47),
        NamedColor::Turquoise => (0x40, 0xe0, 0xd0),
        NamedColor::Violet => (0xee, 0x82, 0xee),
        NamedColor::Wheat => (0xf5, 0xde, 0xb3),
        NamedColor::White => (0xff, 0xff, 0xff),
        NamedColor::WhiteSmoke => (0xf5, 0xf5, 0xf5),
        NamedColor::Yellow => (0xff, 0xff, 0x00),
        NamedColor::YellowGreen => (0x9a, 0xcd, 0x32),
    }
}

/// The position of a colour in the list of names.
pub open spec fn named_color_index(c: NamedColor) -> int {
    match c {
        NamedColor::AliceBlue => 0,
        NamedColor::AntiqueWhite => 1,
        NamedColor::Aqua => 2,
        NamedColor::Aquamarine => 3,
        NamedColor::Azure => 4,
        NamedColor::Beige => 5,
        NamedColor::Bisque => 6,
        NamedColor::Black => 7,
        NamedColor::BlanchedAlmond => 8,
        NamedColor::Blue => 9,
        NamedColor::BlueViolet => 10,
        NamedColor::Brown => 11,
        NamedColor::BurlyWood => 12,
        NamedColor::CadetBlue => 13,
        NamedColor::Chartreuse => 14,
        NamedColor::Chocolate => 15,
        NamedColor::Coral => 16,
        NamedColor::CornflowerBlue => 17,
        NamedColor::Cornsilk => 18,
        NamedColor::Crimson => 19,
        NamedColor::Cyan => 20,
        NamedColor::DarkBlue => 21,
        NamedColor::DarkCyan => 22,
        NamedColor::DarkGoldenRod => 23,
        NamedColor::DarkGray => 24,
        NamedColor::DarkGreen => 25,
        NamedColor::DarkKhaki => 26,
        NamedColor::DarkMagenta => 27,
        NamedColor::DarkOliveGreen => 28,
        NamedColor::DarkOrange => 29,
        NamedColor::DarkOrchid => 30,
        NamedColor::DarkRed => 31,
        NamedColor::DarkSalmon => 32,
        NamedColor::DarkSeaGreen => 33,
        NamedColor::DarkSlateBlue => 34,
        NamedColor::DarkSlateGray => 35,
        NamedColor::DarkTurquoise => 36,
        NamedColor::DarkViolet => 37,
        NamedColor::DeepPink => 38,
        NamedColor::DeepSkyBlue => 39,
        NamedColor::DimGray => 40,
        NamedColor::DodgerBlue => 41,
        NamedColor::FireBrick => 42,
        NamedColor::FloralWhite => 43,
        NamedColor::ForestGreen => 44,
        NamedColor::Fuchsia => 45,
        NamedColor::Gainsboro => 46,
        NamedColor::GhostWhite => 47,
        NamedColor::Gold => 48,
        NamedColor::GoldenRod => 49,
        NamedColor::Gray => 50,
        NamedColor::Green => 51,
        NamedColor::GreenYellow => 52,
        NamedColor::HoneyDew => 53,
        NamedColor::HotPink => 54,
        NamedColor::IndianRed => 55,
        NamedColor::Indigo => 56,
        NamedColor::Ivory => 57,
        NamedColor::Khaki => 58,
        NamedColor::Lavender => 59,
        NamedColor::LavenderBlush => 60,
        NamedColor::LawnGreen => 61,
        NamedColor::LemonChiffon => 62,
        NamedColor::LightBlue => 63,
        NamedColor::LightCoral => 64,
        NamedColor::LightCyan => 65,
        NamedColor::LightGoldenRodYellow => 66,
        NamedColor::LightGray => 67,
        NamedColor::LightGreen => 68,
        NamedColor::LightPink => 69,
        NamedColor::LightSalmon => 70,
        NamedColor::LightSeaGreen => 71,
        NamedColor::LightSkyBlue => 72,
        NamedColor::LightSlateGray => 73,
        NamedColor::LightSteelBlue => 74,
        NamedColor::LightYellow => 75,
        NamedColor::Lime => 76,
        NamedColor::LimeGreen => 77,
        NamedColor::Linen => 78,
        NamedColor::Magenta => 79,
        NamedColor::Maroon => 80,
        NamedColor::MediumAquaMarine => 81,
        NamedColor::MediumBlue => 82,
        NamedColor::MediumOrchid => 83,
        NamedColor::MediumPurple => 84,
        NamedColor::MediumSeaGreen => 85,
        NamedColor::MediumSlateBlue => 86,
        NamedColor::MediumSpringGreen => 87,
        NamedColor::MediumTurquoise => 88,
        NamedColor::MediumVioletRed => 89,
        NamedColor::MidnightBlue => 90,
        NamedColor::MintCream => 91,
        NamedColor::MistyRose => 92,
        NamedColor::Moccasin => 93,
        NamedColor::NavajoWhite => 94,
        NamedColor::Navy => 95,
        NamedColor::OldLace => 96,
        NamedColor::Olive => 97,
        NamedColor::OliveDrab => 98,
        NamedColor::Orange => 99,
        NamedColor::OrangeRed => 100,
        NamedColor::Orchid => 101,
        NamedColor::PaleGoldenRod => 102,
        NamedColor::PaleGreen => 103,
        NamedColor::PaleTurquoise => 104,
        NamedColor::PaleVioletRed => 105,
        NamedColor::PapayaWhip => 106,
        NamedColor::PeachPuff => 107,
        NamedColor::Peru => 108,
        NamedColor::Pink => 109,
        NamedColor::Plum => 110,
        NamedColor::PowderBlue => 111,
        NamedColor::Purple => 112,
        NamedColor::RebeccaPurple => 113,
        NamedColor::Red => 114,
        NamedColor::RosyBrown => 115,
        NamedColor::RoyalBlue => 116,
        NamedColor::SaddleBrown => 117,
        NamedColor::Salmon => 118,
        NamedColor::SandyBrown => 119,
        NamedColor::SeaGreen => 120,
        NamedColor::SeaShell => 121,
        NamedColor::Sienna => 122,
        NamedColor::Silver => 123,
        NamedColor::SkyBlue => 124,
        NamedColor::SlateBlue => 125,
        NamedColor::SlateGray => 126,
        NamedColor::Snow => 127,
        NamedColor::SpringGreen => 128,
        NamedColor::SteelBlue => 129,
        NamedColor::Tan => 130,
        NamedColor::Teal => 131,
        NamedColor::Thistle => 132,
        NamedColor::Tomato => 133,
        NamedColor::Turquoise => 134,
        NamedColor::Violet => 135,
        NamedColor::Wheat => 136,
        NamedColor::White => 137,
        NamedColor::WhiteSmoke => 138,
        NamedColor::Yellow => 139,
        NamedColor::YellowGreen => 140,
    }
}

/// The colour at a position of the list of names.
pub open spec fn named_color_at(i: u8) -> NamedColor {
    match i {
        0 => NamedColor::AliceBlue,
        1 => NamedColor::AntiqueWhite,
        2 => NamedColor::Aqua,
        3 => NamedColor::Aquamarine,
        4 => NamedColor::Azure,
        5 => NamedColor::Beige,
        6 => NamedColor::Bisque,
        7 => NamedColor::Black,
        8 => NamedColor::BlanchedAlmond,
        9 => NamedColor::Blue,
        10 => NamedColor::BlueViolet,
        11 => NamedColor::Brown,
        12 => NamedColor::BurlyWood,
        13 => NamedColor::CadetBlue,
        14 => NamedColor::Chartreuse,
        15 => NamedColor::Chocolate,
        16 => NamedColor::Coral,
        17 => NamedColor::CornflowerBlue,
        18 => NamedColor::Cornsilk,
        19 => NamedColor::Crimson,
        20 => NamedColor::Cyan,
        21 => NamedColor::DarkBlue,
        22 => NamedColor::DarkCyan,
        23 => NamedColor::DarkGoldenRod,
        24 => NamedColor::DarkGray,
        25 => NamedColor::DarkGreen,
        26 => NamedColor::DarkKhaki,
        27 => NamedColor::DarkMagenta,
        28 => NamedColor::DarkOliveGreen,
        29 => NamedColor::DarkOrange,
        30 => NamedColor::DarkOrchid,
        31 => NamedColor::DarkRed,
        32 => NamedColor::DarkSalmon,
        33 => NamedColor::DarkSeaGreen,
        34 => NamedColor::DarkSlateBlue,
        35 => NamedColor::DarkSlateGray,
        36 => NamedColor::DarkTurquoise,
        37 => NamedColor::DarkViolet,
        38 => NamedColor::DeepPink,
        39 => NamedColor::DeepSkyBlue,
        40 => NamedColor::DimGray,
        41 => NamedColor::DodgerBlue,
        42 => NamedColor::FireBrick,
        43 => NamedColor::FloralWhite,
        44 => NamedColor::ForestGreen,
        45 => NamedColor::Fuchsia,
        46 => NamedColor::Gainsboro,
        47 => NamedColor::GhostWhite,
        48 => NamedColor::Gold,
        49 => NamedColor::GoldenRod,
        50 => NamedColor::Gray,
        51 => NamedColor::Green,
        52 => NamedColor::GreenYellow,
        53 => NamedColor::HoneyDew,
        54 => NamedColor::HotPink,
        55 => NamedColor::IndianRed,
        56 => NamedColor::Indigo,
        57 => NamedColor::Ivory,
        58 => NamedColor::Khaki,
        59 => NamedColor::Lavender,
        60 => NamedColor::LavenderBlush,
        61 => NamedColor::LawnGreen,
        62 => NamedColor::LemonChiffon,
        63 => NamedColor::LightBlue,
        64 => NamedColor::LightCoral,
        65 => NamedColor::LightCyan,
        66 => NamedColor::LightGoldenRodYellow,
        67 => NamedColor::LightGray,
        68 => NamedColor::LightGreen,
        69 => NamedColor::LightPink,
        70 => NamedColor::LightSalmon,
        71 => NamedColor::LightSeaGreen,
        72 => NamedColor::LightSkyBlue,
        73 => NamedColor::LightSlateGray,
        74 => NamedColor::LightSteelBlue,
        75 => NamedColor::LightYellow,
        76 => NamedColor::Lime,
        77 => NamedColor::LimeGreen,
        78 => NamedColor::Linen,
        79 => NamedColor::Magenta,
        80 => NamedColor::Maroon,
        81 => NamedColor::MediumAquaMarine,
        82 => NamedColor::MediumBlue,
        83 => NamedColor::MediumOrchid,
        84 => NamedColor::MediumPurple,
        85 => NamedColor::MediumSeaGreen,
        86 => NamedColor::MediumSlateBlue,
        87 => NamedColor::MediumSpringGreen,
        88 => NamedColor::MediumTurquoise,
        89 => NamedColor::MediumVioletRed,
        90 => NamedColor::MidnightBlue,
        91 => NamedColor::MintCream,
        92 => NamedColor::MistyRose,
        93 => NamedColor::Moccasin,
        94 => NamedColor::NavajoWhite,
        95 => NamedColor::Navy,
        96 => NamedColor::OldLace,
        97 => NamedColor::Olive,
        98 => NamedColor::OliveDrab,
        99 => NamedColor::Orange,
        100 => NamedColor::OrangeRed,
        101 => NamedColor::Orchid,
        102 => NamedColor::PaleGoldenRod,
        103 => NamedColor::PaleGreen,
        104 => NamedColor::PaleTurquoise,
        105 => NamedColor::PaleVioletRed,
        106 => NamedColor::PapayaWhip,
        107 => NamedColor::PeachPuff,
        108 => NamedColor::Peru,
        109 => NamedColor::Pink,
        110 => NamedColor::Plum,
        111 => NamedColor::PowderBlue,
        112 => NamedColor::Purple,
        113 => NamedColor::RebeccaPurple,
        114 => NamedColor::Red,
        115 => NamedColor::RosyBrown,
        116 => NamedColor::RoyalBlue,
        117 => NamedColor::SaddleBrown,
        118 => NamedColor::Salmon,
        119 => NamedColor::SandyBrown,
        120 => NamedColor::SeaGreen,
        121 => NamedColor::SeaShell,
        122 => NamedColor::Sienna,
        123 => NamedColor::Silver,
        124 => NamedColor::SkyBlue,
        125 => NamedColor::SlateBlue,
        126 => NamedColor::SlateGray,
        127 => NamedColor::Snow,
        128 => NamedColor::SpringGreen,
        129 => NamedColor::SteelBlue,
        130 => NamedColor::Tan,
        131 => NamedColor::Teal,
        132 => NamedColor::Thistle,
        133 => NamedColor::Tomato,
        134 => NamedColor::Turquoise,
        135 => NamedColor::Violet,
        136 => NamedColor::Wheat,
        137 => NamedColor::White,
        138 => NamedColor::WhiteSmoke,
        139 => NamedColor::Yellow,
        _ => NamedColor::YellowGreen,
    }
}

pub proof fn lemma_named_color_at_index(c: NamedColor)
    ensures
        named_color_at(named_color_index(c) as u8) == c,
        0 <= named_color_index(c) < NAMED_COLOR_COUNT,
{
}

/// The colour at position `i` of the list of names.
fn named_color_entry(i: usize) -> (r: NamedColor)
    requires
        i < NAMED_COLOR_COUNT,
    ensures
        r == named_color_at(i as u8),
{
    match i {
        0 => NamedColor::AliceBlue,
        1 => NamedColor::AntiqueWhite,
        2 => NamedColor::Aqua,
        3 => NamedColor::Aquamarine,
        4 => NamedColor::Azure,
        5 => NamedColor::Beige,
        6 => NamedColor::Bisque,
        7 => NamedColor::Black,
        8 => NamedColor::BlanchedAlmond,
        9 => NamedColor::Blue,
        10 => NamedColor::BlueViolet,
        11 => NamedColor::Brown,
        12 => NamedColor::BurlyWood,
        13 => NamedColor::CadetBlue,
        14 => NamedColor::Chartreuse,
        15 => NamedColor::Chocolate,
        16 => NamedColor::Coral,
        17 => NamedColor::CornflowerBlue,
        18 => NamedColor::Cornsilk,
        19 => NamedColor::Crimson,
        20 => NamedColor::Cyan,
        21 => NamedColor::DarkBlue,
        22 => NamedColor::DarkCyan,
        23 => NamedColor::DarkGoldenRod,
        24 => NamedColor::DarkGray,
        25 => NamedColor::DarkGreen,
        26 => NamedColor::DarkKhaki,
        27 => NamedColor::DarkMagenta,
        28 => NamedColor::DarkOliveGreen,
        29 => NamedColor::DarkOrange,
        30 => NamedColor::DarkOrchid,
        31 => NamedColor::DarkRed,
        32 => NamedColor::DarkSalmon,
        33 => NamedColor::DarkSeaGreen,
        34 => NamedColor::DarkSlateBlue,
        35 => NamedColor::DarkSlateGray,
        36 => NamedColor::DarkTurquoise,
        37 => NamedColor::DarkViolet,
        38 => NamedColor::DeepPink,
        39 => NamedColor::DeepSkyBlue,
        40 => NamedColor::DimGray,
        41 => NamedColor::DodgerBlue,
        42 => NamedColor::FireBrick,
        43 => NamedColor::FloralWhite,
        44 => NamedColor::ForestGreen,
        45 => NamedColor::Fuchsia,
        46 => NamedColor::Gainsboro,
        47 => NamedColor::GhostWhite,
        48 => NamedColor::Gold,
        49 => NamedColor::GoldenRod,
        50 => NamedColor::Gray,
        51 => NamedColor::Green,
        52 => NamedColor::GreenYellow,
        53 => NamedColor::HoneyDew,
        54 => NamedColor::HotPink,
        55 => NamedColor::IndianRed,
        56 => NamedColor::Indigo,
        57 => NamedColor::Ivory,
        58 => NamedColor::Khaki,
        59 => NamedColor::Lavender,
        60 => NamedColor::LavenderBlush,
        61 => NamedColor::LawnGreen,
        62 => NamedColor::LemonChiffon,
        63 => NamedColor::LightBlue,
        64 => NamedColor::LightCoral,
        65 => NamedColor::LightCyan,
        66 => NamedColor::LightGoldenRodYellow,
        67 => NamedColor::LightGray,
        68 => NamedColor::LightGreen,
        69 => NamedColor::LightPink,
        70 => NamedColor::LightSalmon,
        71 => NamedColor::LightSeaGreen,
        72 => NamedColor::LightSkyBlue,
        73 => NamedColor::LightSlateGray,
        74 => NamedColor::LightSteelBlue,
        75 => NamedColor::LightYellow,
        76 => NamedColor::Lime,
        77 => NamedColor::LimeGreen,
        78 => NamedColor::Linen,
        79 => NamedColor::Magenta,
        80 => NamedColor::Maroon,
        81 => NamedColor::MediumAquaMarine,
        82 => NamedColor::MediumBlue,
        83 => NamedColor::MediumOrchid,
        84 => NamedColor::MediumPurple,
        85 => NamedColor::MediumSeaGreen,
        86 => NamedColor::MediumSlateBlue,
        87 => NamedColor::MediumSpringGreen,
        88 => NamedColor::MediumTurquoise,
        89 => NamedColor::MediumVioletRed,
        90 => NamedColor::MidnightBlue,
        91 => NamedColor::MintCream,
        92 => NamedColor::MistyRose,
        93 => NamedColor::Moccasin,
        94 => NamedColor::NavajoWhite,
        95 => NamedColor::Navy,
        96 => NamedColor::OldLace,
        97 => NamedColor::Olive,
        98 => NamedColor::OliveDrab,
        99 => NamedColor::Orange,
        100 => NamedColor::OrangeRed,
        101 => NamedColor::Orchid,
        102 => NamedColor::PaleGoldenRod,
        103 => NamedColor::PaleGreen,
        104 => NamedColor::PaleTurquoise,
        105 => NamedColor::PaleVioletRed,
        106 => NamedColor::PapayaWhip,
        107 => NamedColor::PeachPuff,
        108 => NamedColor::Peru,
        109 => NamedColor::Pink,
        110 => NamedColor::Plum,
        111 => NamedColor::PowderBlue,
        112 => NamedColor::Purple,
        113 => NamedColor::RebeccaPurple,
        114 => NamedColor::Red,
        115 => NamedColor::RosyBrown,
        116 => NamedColor::RoyalBlue,
        117 => NamedColor::SaddleBrown,
        118 => NamedColor::Salmon,
        119 => NamedColor::SandyBrown,
        120 => NamedColor::SeaGreen,
        121 => NamedColor::SeaShell,
        122 => NamedColor::Sienna,
        123 => NamedColor::Silver,
        124 => NamedColor::SkyBlue,
        125 => NamedColor::SlateBlue,
        126 => NamedColor::SlateGray,
        127 => NamedColor::Snow,
        128 => NamedColor::SpringGreen,
        129 => NamedColor::SteelBlue,
        130 => NamedColor::Tan,
        131 => NamedColor::Teal,
        132 => NamedColor::Thistle,
        133 => NamedColor::Tomato,
        134 => NamedColor::Turquoise,
        135 => NamedColor::Violet,
        136 => NamedColor::Wheat,
        137 => NamedColor::White,
        138 => NamedColor::WhiteSmoke,
        139 => NamedColor::Yellow,
        _ => NamedColor::YellowGreen,
    }
}

impl NamedColor {
    /// The name as it is written.
    pub fn name(&self) -> (r: &'static str)
        ensures
            r@ == named_color_name(*self),
    {
        match self {
            NamedColor::AliceBlue => "AliceBlue",
            NamedColor::AntiqueWhite => "AntiqueWhite",
            NamedColor::Aqua => "Aqua",
            NamedColor::Aquamarine => "Aquamarine",
            NamedColor::Azure => "Azure",
            NamedColor::Beige => "Beige",
            NamedColor::Bisque => "Bisque",
            NamedColor::Black => "Black",
            NamedColor::BlanchedAlmond => "BlanchedAlmond",
            NamedColor::Blue => "Blue",
            NamedColor::BlueViolet => "BlueViolet",
            NamedColor::Brown => "Brown",
            NamedColor::BurlyWood => "BurlyWood",
            NamedColor::CadetBlue => "CadetBlue",
            NamedColor::Chartreuse => "Chartreuse",
            NamedColor::Chocolate => "Chocolate",
            NamedColor::Coral => "Coral",
            NamedColor::CornflowerBlue => "CornflowerBlue",
            NamedColor::Cornsilk => "Cornsilk",
            NamedColor::Crimson => "Crimson",
            NamedColor::Cyan => "Cyan",
            NamedColor::DarkBlue => "DarkBlue",
            NamedColor::DarkCyan => "DarkCyan",
            NamedColor::DarkGoldenRod => "DarkGoldenRod",
            NamedColor::DarkGray => "DarkGray",
            NamedColor::DarkGreen => "DarkGreen",
            NamedColor::DarkKhaki => "DarkKhaki",
            NamedColor::DarkMagenta => "DarkMagenta",
            NamedColor::DarkOliveGreen => "DarkOliveGreen",
            NamedColor::DarkOrange => "DarkOrange",
            NamedColor::DarkOrchid => "DarkOrchid",
            NamedColor::DarkRed => "DarkRed",
            NamedColor::DarkSalmon => "DarkSalmon",
            NamedColor::DarkSeaGreen => "DarkSeaGreen",
            NamedColor::DarkSlateBlue => "DarkSlateBlue",
            NamedColor::DarkSlateGray => "DarkSlateGray",
            NamedColor::DarkTurquoise => "DarkTurquoise",
            NamedColor::DarkViolet => "DarkViolet",
            NamedColor::DeepPink => "DeepPink",
            NamedColor::DeepSkyBlue => "DeepSkyBlue",
            NamedColor::DimGray => "DimGray",
            NamedColor::DodgerBlue => "DodgerBlue",
            NamedColor::FireBrick => "FireBrick",
            NamedColor::FloralWhite => "FloralWhite",
            NamedColor::ForestGreen => "ForestGreen",
            NamedColor::Fuchsia => "Fuchsia",
            NamedColor::Gainsboro => "Gainsboro",
            NamedColor::GhostWhite => "GhostWhite",
            NamedColor::Gold => "Gold",
            NamedColor::GoldenRod => "GoldenRod",
            NamedColor::Gray => "Gray",
            NamedColor::Green => "Green",
            NamedColor::GreenYellow => "GreenYellow",
            NamedColor::HoneyDew => "HoneyDew",
            NamedColor::HotPink => "HotPink",
            NamedColor::IndianRed => "IndianRed",
            NamedColor::Indigo => "Indigo",
            NamedColor::Ivory => "Ivory",
            NamedColor::Khaki => "Khaki",
            NamedColor::Lavender => "Lavender",
            NamedColor::LavenderBlush => "LavenderBlush",
            NamedColor::LawnGreen => "LawnGreen",
            NamedColor::LemonChiffon => "LemonChiffon",
            NamedColor::LightBlue => "LightBlue",
            NamedColor::LightCoral => "LightCoral",
            NamedColor::LightCyan => "LightCyan",
            NamedColor::LightGoldenRodYellow => "LightGoldenRodYellow",
            NamedColor::LightGray => "LightGray",
            NamedColor::LightGreen => "LightGreen",
            NamedColor::LightPink => "LightPink",
            NamedColor::LightSalmon => "LightSalmon",
            NamedColor::LightSeaGreen => "LightSeaGreen",
            NamedColor::LightSkyBlue => "LightSkyBlue",
            NamedColor::LightSlateGray => "LightSlateGray",
            NamedColor::LightSteelBlue => "LightSteelBlue",
            NamedColor::LightYellow => "LightYellow",
            NamedColor::Lime => "Lime",
            NamedColor::LimeGreen => "LimeGreen",
            NamedColor::Linen => "Linen",
            NamedColor::Magenta => "Magenta",
            NamedColor::Maroon => "Maroon",
            NamedColor::MediumAquaMarine => "MediumAquaMarine",
            NamedColor::MediumBlue => "MediumBlue",
            NamedColor::MediumOrchid => "MediumOrchid",
            NamedColor::MediumPurple => "MediumPurple",
            NamedColor::MediumSeaGreen => "MediumSeaGreen",
            NamedColor::MediumSlateBlue => "MediumSlateBlue",
            NamedColor::MediumSpringGreen => "MediumSpringGreen",
            NamedColor::MediumTurquoise => "MediumTurquoise",
            NamedColor::MediumVioletRed => "MediumVioletRed",
            NamedColor::MidnightBlue => "MidnightBlue",
            NamedColor::MintCream => "MintCream",
            NamedColor::MistyRose => "MistyRose",
            NamedColor::Moccasin => "Moccasin",
            NamedColor::NavajoWhite => "NavajoWhite",
            NamedColor::Navy => "Navy",
            NamedColor::OldLace => "OldLace",
            NamedColor::Olive => "Olive",
            NamedColor::OliveDrab => "OliveDrab",
            NamedColor::Orange => "Orange",
            NamedColor::OrangeRed => "OrangeRed",
            NamedColor::Orchid => "Orchid",
            NamedColor::PaleGoldenRod => "PaleGoldenRod",
            NamedColor::PaleGreen => "PaleGreen",
            NamedColor::PaleTurquoise => "PaleTurquoise",
            NamedColor::PaleVioletRed => "PaleVioletRed",
            NamedColor::PapayaWhip => "PapayaWhip",
            NamedColor::PeachPuff => "PeachPuff",
            NamedColor::Peru => "Peru",
            NamedColor::Pink => "Pink",
            NamedColor::Plum => "Plum",
            NamedColor::PowderBlue => "PowderBlue",
            NamedColor::Purple => "Purple",
            NamedColor::RebeccaPurple => "RebeccaPurple",
            NamedColor::Red => "Red",
            NamedColor::RosyBrown => "RosyBrown",
            NamedColor::RoyalBlue => "RoyalBlue",
            NamedColor::SaddleBrown => "SaddleBrown",
            NamedColor::Salmon => "Salmon",
            NamedColor::SandyBrown => "SandyBrown",
            NamedColor::SeaGreen => "SeaGreen",
            NamedColor::SeaShell => "SeaShell",
            NamedColor::Sienna => "Sienna",
            NamedColor::Silver => "Silver",
            NamedColor::SkyBlue => "SkyBlue",
            NamedColor::SlateBlue => "SlateBlue",
            NamedColor::SlateGray => "SlateGray",
            NamedColor::Snow => "Snow",
            NamedColor::SpringGreen => "SpringGreen",
            NamedColor::SteelBlue => "SteelBlue",
            NamedColor::Tan => "Tan",
            NamedColor::Teal => "Teal",
            NamedColor::Thistle => "Thistle",
            NamedColor::Tomato => "Tomato",
            NamedColor::Turquoise => "Turquoise",
            NamedColor::Violet => "Violet",
            NamedColor::Wheat => "Wheat",
            NamedColor::White => "White",
            NamedColor::WhiteSmoke => "WhiteSmoke",
            NamedColor::Yellow => "Yellow",
            NamedColor::YellowGreen => "YellowGreen",
        }
    }

    /// The colour as red, green and blue components.
    pub fn to_rgb(&self) -> (r: Color)
        ensures
            r@ == Color::<Seq<char>>::Rgb(
                named_color_rgb(*self).0,
                named_color_rgb(*self).1,
                named_color_rgb(*self).2,
            ),
    {
        match self {
            NamedColor::AliceBlue => Color::Rgb(0xf0, 0xf8, 0xff),
            NamedColor::AntiqueWhite => Color::Rgb(0xfa, 0xeb, 0xd7),
            NamedColor::Aqua => Color::Rgb(0x00, 0xff, 0xff),
            NamedColor::Aquamarine => Color::Rgb(0x7f, 0xff, 0xd4),
            NamedColor::Azure => Color::Rgb(0xf0, 0xff, 0xff),
            NamedColor::Beige => Color::Rgb(0xf5, 0xf5, 0xdc),
            NamedColor::Bisque => Color::Rgb(0xff, 0xe4, 0xc4),
            NamedColor::Black => Color::Rgb(0x00, 0x00, 0x00),
            NamedColor::BlanchedAlmond => Color::Rgb(0xff, 0xeb, 0xcd),
            NamedColor::Blue => Color::Rgb(0x00, 0x00, 0xff),
            NamedColor::BlueViolet => Color::Rgb(0x8a, 0x2b, 0xe2),
            NamedColor::Brown => Color::Rgb(0xa5, 0x2a, 0x2a),
            NamedColor::BurlyWood => Color::Rgb(0xde, 0xb8, 0x87),
            NamedColor::CadetBlue => Color::Rgb(0x5f, 0x9e, 0xa0),
            NamedColor::Chartreuse => Color::Rgb(0x7f, 0xff, 0x00),
            NamedColor::Chocolate => Color::Rgb(0xd2, 0x69, 0x1e),
            NamedColor::Coral => Color::Rgb(0xff, 0x7f, 0x50),
            NamedColor::CornflowerBlue => Color::Rgb(0x64, 0x95, 0xed),
            NamedColor::Cornsilk => Color::Rgb(0xff, 0xf8, 0xdc),
            NamedColor::Crimson => Color::Rgb(0xdc, 0x14, 0x3c),
            NamedColor::Cyan => Color::Rgb(0x00, 0xff, 0xff),
            NamedColor::DarkBlue => Color::Rgb(0x00, 0x00, 0x8b),
            NamedColor::DarkCyan => Color::Rgb(0x00, 0x8b, 0x8b),
            NamedColor::DarkGoldenRod => Color::Rgb(0xb8, 0x86, 0x0b),
            NamedColor::DarkGray => Color::Rgb(0xa9, 0xa9, 0xa9),
            NamedColor::DarkGreen => Color::Rgb(0x00, 0x64, 0x00),
            NamedColor::DarkKhaki => Color::Rgb(0xbd, 0xb7, 0x6b),
            NamedColor::DarkMagenta => Color::Rgb(0x8b, 0x00, 0x8b),
            NamedColor::DarkOliveGreen => Color::Rgb(0x55, 0x6b, 0x2f),
            NamedColor::DarkOrange => Color::Rgb(0xff, 0x8c, 0x00),
            NamedColor::DarkOrchid => Color::Rgb(0x99, 0x32, 0xcc),
            NamedColor::DarkRed => Color::Rgb(0x8b, 0x00, 0x00),
            NamedColor::DarkSalmon => Color::Rgb(0xe9, 0x96, 0x7a),
            NamedColor::DarkSeaGreen => Color::Rgb(0x8f, 0xbc, 0x8f),
            NamedColor::DarkSlateBlue => Color::Rgb(0x48, 0x3d, 0x8b),
            NamedColor::DarkSlateGray => Color::Rgb(0x2f, 0x4f, 0x4f),
            NamedColor::DarkTurquoise => Color::Rgb(0x00, 0xce, 0xd1),
            NamedColor::DarkViolet => Color::Rgb(0x94, 0x00, 0xd3),
            NamedColor::DeepPink => Color::Rgb(0xff, 0x14, 0x93),
            NamedColor::DeepSkyBlue => Color::Rgb(0x00, 0xbf, 0xff),
            NamedColor::DimGray => Color::Rgb(0x69, 0x69, 0x69),
            NamedColor::DodgerBlue => Color::Rgb(0x1e, 0x90, 0xff),
            NamedColor::FireBrick => Color::Rgb(0xb2, 0x22, 0x22),
            NamedColor::FloralWhite => Color::Rgb(0xff, 0xfa, 0xf0),
            NamedColor::ForestGreen => Color::Rgb(0x22, 0x8b, 0x22),
            NamedColor::Fuchsia => Color::Rgb(0xff, 0x00, 0xff),
            NamedColor::Gainsboro => Color::Rgb(0xdc, 0xdc, 0xdc),
            NamedColor::GhostWhite => Color::Rgb(0xf8, 0xf8, 0xff),
            NamedColor::Gold => Color::Rgb(0xff, 0xd7, 0x00),
            NamedColor::GoldenRod => Color::Rgb(0xda, 0xa5, 0x20),
            NamedColor::Gray => Color::Rgb(0x80, 0x80, 0x80),
            NamedColor::Green => Color::Rgb(0x00, 0x80, 0x00),
            NamedColor::GreenYellow => Color::Rgb(0xad, 0xff, 0x2f),
            NamedColor::HoneyDew => Color::Rgb(0xf0, 0xff, 0xf0),
            NamedColor::HotPink => Color::Rgb(0xff, 0x69, 0xb4),
            NamedColor::IndianRed => Color::Rgb(0xcd, 0x5c, 0x5c),
            NamedColor::Indigo => Color::Rgb(0x4b, 0x00, 0x82),
            NamedColor::Ivory => Color::Rgb(0xff, 0xff, 0xf0),
            NamedColor::Khaki => Color::Rgb(0xf0, 0xe6, 0x8c),
            NamedColor::Lavender => Color::Rgb(0xe6, 0xe6, 0xfa),
            NamedColor::LavenderBlush => Color::Rgb(0xff, 0xf0, 0xf5),
            NamedColor::LawnGreen => Color::Rgb(0x7c, 0xfc, 0x00),
            NamedColor::LemonChiffon => Color::Rgb(0xff, 0xfa, 0xcd),
            NamedColor::LightBlue => Color::Rgb(0xad, 0xd8, 0xe6),
            NamedColor::LightCoral => Color::Rgb(0xf0, 0x80, 0x80),
            NamedColor::LightCyan => Color::Rgb(0xe0, 0xff, 0xff),
            NamedColor::LightGoldenRodYellow => Color::Rgb(0xfa, 0xfa, 0xd2),
            NamedColor::LightGray => Color::Rgb(0xd3, 0xd3, 0xd3),
            NamedColor::LightGreen => Color::Rgb(0x90, 0xee, 0x90),
            NamedColor::LightPink => Color::Rgb(0xff, 0xb6, 0xc1),
            NamedColor::LightSalmon => Color::Rgb(0xff, 0xa0, 0x7a),
            NamedColor::LightSeaGreen => Color::Rgb(0x20, 0xb2, 0xaa),
            NamedColor::LightSkyBlue => Color::Rgb(0x87, 0xce, 0xfa),
            NamedColor::LightSlateGray => Color::Rgb(0x77, 0x88, 0x99),
            NamedColor::LightSteelBlue => Color::Rgb(0xb0, 0xc4, 0xde),
            NamedColor::LightYellow => Color::Rgb(0xff, 0xff, 0xe0),
            NamedColor::Lime => Color::Rgb(0x00, 0xff, 0x00),
            NamedColor::LimeGreen => Color::Rgb(0x32, 0xcd, 0x32),
            NamedColor::Linen => Color::Rgb(0xfa, 0xf0, 0xe6),
            NamedColor::Magenta => Color::Rgb(0xff, 0x00, 0xff),
            NamedColor::Maroon => Color::Rgb(0x80, 0x00, 0x00),
            NamedColor::MediumAquaMarine => Color::Rgb(0x66, 0xcd, 0xaa),
            NamedColor::MediumBlue => Color::Rgb(0x00, 0x00, 0xcd),
            NamedColor::MediumOrchid => Color::Rgb(0xba, 0x55, 0xd3),
            NamedColor::MediumPurple => Color::Rgb(0x93, 0x70, 0xdb),
            NamedColor::MediumSeaGreen => Color::Rgb(0x3c, 0xb3, 0x71),
            NamedColor::MediumSlateBlue => Color::Rgb(0x7b, 0x68, 0xee),
            NamedColor::MediumSpringGreen => Color::Rgb(0x00, 0xfa, 0x9a),
            NamedColor::MediumTurquoise => Color::Rgb(0x48, 0xd1, 0xcc),
            NamedColor::MediumVioletRed => Color::Rgb(0xc7, 0x15, 0x85),
            NamedColor::MidnightBlue => Color::Rgb(0x19, 0x19, 0x70),
            NamedColor::MintCream => Color::Rgb(0xf5, 0xff, 0xfa),
            NamedColor::MistyRose => Color::Rgb(0xff, 0xe4, 0xe1),
            NamedColor::Moccasin => Color::Rgb(0xff, 0xe4, 0xb5),
            NamedColor::NavajoWhite => Color::Rgb(0xff, 0xde, 0xad),
            NamedColor::Navy => Color::Rgb(0x00, 0x00, 0x80),
            NamedColor::OldLace => Color::Rgb(0xfd, 0xf5, 0xe6),
            NamedColor::Olive => Color::Rgb(0x80, 0x80, 0x00),
            NamedColor::OliveDrab => Color::Rgb(0x6b, 0x8e, 0x23),
            NamedColor::Orange => Color::Rgb(0xff, 0xa5, 0x00),
            NamedColor::OrangeRed => Color::Rgb(0xff, 0x45, 0x00),
            NamedColor::Orchid => Color::Rgb(0xda, 0x70, 0xd6),
            NamedColor::PaleGoldenRod => Color::Rgb(0xee, 0xe8, 0xaa),
            NamedColor::PaleGreen => Color::Rgb(0x98, 0xfb, 0x98),
            NamedColor::PaleTurquoise => Color::Rgb(0xaf, 0xee, 0xee),
            NamedColor::PaleVioletRed => Color::Rgb(0xdb, 0x70, 0x93),
            NamedColor::PapayaWhip => Color::Rgb(0xff, 0xef, 0xd5),
            NamedColor::PeachPuff => Color::Rgb(0xff, 0xda, 0xb9),
            NamedColor::Peru => Color::Rgb(0xcd, 0x85, 0x3f),
            NamedColor::Pink => Color::Rgb(0xff, 0xc0, 0xcb),
            NamedColor::Plum => Color::Rgb(0xdd, 0xa0, 0xdd),
            NamedColor::PowderBlue => Color::Rgb(0xb0, 0xe0, 0xe6),
            NamedColor::Purple => Color::Rgb(0x80, 0x00, 0x80),
            NamedColor::RebeccaPurple => Color::Rgb(0x66, 0x33, 0x99),
            NamedColor::Red => Color::Rgb(0xff, 0x00, 0x00),
            NamedColor::RosyBrown => Color::Rgb(0xbc, 0x8f, 0x8f),
            NamedColor::RoyalBlue => Color::Rgb(0x41, 0x69, 0xe1),
            NamedColor::SaddleBrown => Color::Rgb(0x8b, 0x45, 0x13),
            NamedColor::Salmon => Color::Rgb(0xfa, 0x80, 0x72),
            NamedColor::SandyBrown => Color::Rgb(0xf4, 0xa4, 0x60),
            NamedColor::SeaGreen => Color::Rgb(0x2e, 0x8b, 0x57),
            NamedColor::SeaShell => Color::Rgb(0xff, 0xf5, 0xee),
            NamedColor::Sienna => Color::Rgb(0xa0, 0x52, 0x2d),
            NamedColor::Silver => Color::Rgb(0xc0, 0xc0, 0xc0),
            NamedColor::SkyBlue => Color::Rgb(0x87, 0xce, 0xeb),
            NamedColor::SlateBlue => Color::Rgb(0x6a, 0x5a, 0xcd),
            NamedColor::SlateGray => Color::Rgb(0x70, 0x80, 0x90),
            NamedColor::Snow => Color::Rgb(0xff, 0xfa, 0xfa),
            NamedColor::SpringGreen => Color::Rgb(0x00, 0xff, 0x7f),
            NamedColor::SteelBlue => Color::Rgb(0x46, 0x82, 0xb4),
            NamedColor::Tan => Color::Rgb(0xd2, 0xb4, 0x8c),
            NamedColor::Teal => Color::Rgb(0x00, 0x80, 0x80),
            NamedColor::Thistle => Color::Rgb(0xd8, 0xbf, 0xd8),
            NamedColor::Tomato => Color::Rgb(0xff, 0x63, 0x47),
            NamedColor::Turquoise => Color::Rgb(0x40, 0xe0, 0xd0),
            NamedColor::Violet => Color::Rgb(0xee, 0x82, 0xee),
            NamedColor::Wheat => Color::Rgb(0xf5, 0xde, 0xb3),
            NamedColor::White => Color::Rgb(0xff, 0xff, 0xff),
            NamedColor::WhiteSmoke => Color::Rgb(0xf5, 0xf5, 0xf5),
            NamedColor::Yellow => Color::Rgb(0xff, 0xff, 0x00),
            NamedColor::YellowGreen => Color::Rgb(0x9a, 0xcd, 0x32),
        }
    }

    /// The first colour in the list whose name `s` is, letters compared without
    /// regard to case.
    pub fn from_str(s: &str) -> (r: Option<NamedColor>)
        ensures
            r == named_color_lookup(s@, 0),
    {
        let cs = str_chars(s);
        let mut i: usize = 0;
        while i < NAMED_COLOR_COUNT
            invariant
                i <= NAMED_COLOR_COUNT,
                cs@ == s@,
                named_color_lookup(s@, 0) == named_color_lookup(s@, i as nat),
            decreases NAMED_COLOR_COUNT - i,
        {
            let c = named_color_entry(i);
            let name = str_chars(c.name());
            if same_ignoring_case(&cs, &name) {
                return Some(c);
            }
            i = i + 1;
        }
        None
    }
}

/// The first colour, from position `i` of the list on, whose name `name` is,
/// letters compared without regard to case.
pub open spec fn named_color_lookup(name: Seq<char>, i: nat) -> Option<NamedColor>
    decreases NAMED_COLOR_COUNT - i,
{
    if i >= NAMED_COLOR_COUNT {
        None
    } else if eq_ignore_ascii_case(name, named_color_name(named_color_at(i as u8))) {
        Some(named_color_at(i as u8))
    } else {
        named_color_lookup(name, i + 1)
    }
}

pub proof fn lemma_named_color_lookup(name: Seq<char>, i: nat)
    ensures
        named_color_lookup(name, i) matches Some(c) ==> eq_ignore_ascii_case(
            name,
            named_color_name(c),
        ),
        named_color_lookup(name, 0) is None ==> forall|d: NamedColor|
            !eq_ignore_ascii_case(name, named_color_name(d)),
    decreases NAMED_COLOR_COUNT - i,
{
    if i < NAMED_COLOR_COUNT {
        lemma_named_color_lookup(name, i + 1);
    }
    if named_color_lookup(name, 0) is None {
        assert forall|d: NamedColor| !eq_ignore_ascii_case(name, named_color_name(d)) by {
            lemma_named_color_at_index(d);
            lemma_lookup_none_below(name, 0, named_color_index(d) as nat);
        }
    }
}

proof fn lemma_lookup_none_below(name: Seq<char>, i: nat, k: nat)
    requires
        named_color_lookup(name, i) is None,
        i <= k < NAMED_COLOR_COUNT,
    ensures
        !eq_ignore_ascii_case(name, named_color_name(named_color_at(k as u8))),
    decreases k - i,
{
    if i < k {
        lemma_lookup_none_below(name, i + 1, k);
    }
}

/// Whether two texts are equal with ASCII letters compared without regard to case.
pub fn same_ignoring_case(a: &[char], b: &[char]) -> (r: bool)
    ensures
        r == eq_ignore_ascii_case(a@, b@),
{
    if a.len() != b.len() {
        return false;
    }
    let mut i: usize = 0;
    while i < a.len()
        invariant
            a@.len() == b@.len(),
            i <= a@.len(),
            forall|j: int| 0 <= j < i ==> lower_char(#[trigger] a@[j]) == lower_char(b@[j]),
        decreases a@.len() - i,
    {
        if char_to_lower(a[i]) != char_to_lower(b[i]) {
            return false;
        }
        i = i + 1;
    }
    true
}

/// A colour as a path writes it.
#[derive(Debug, Clone, PartialEq, Eq)]
pub enum Color<S = String> {
    Named(NamedColor),
    Hex(S),
    Rgb(u8, u8, u8),
    Auto,
    Blur,
    NoColor,
}

impl View for Color<String> {
    type V = Color<Seq<char>>;

    open spec fn view(&self) -> Color<Seq<char>> {
        match self {
            Color::Named(n) => Color::Named(*n),
            Color::Hex(h) => Color::Hex(h@),
            Color::Rgb(r, g, b) => Color::Rgb(*r, *g, *b),
            Color::Auto => Color::Auto,
            Color::Blur => Color::Blur,
            Color::NoColor => Color::NoColor,
        }
    }
}

/// Bytes of a text after its leading `#` characters.
pub open spec fn strip_hashes(b: Seq<u8>) -> Seq<u8>
    decreases b.len(),
{
    if b.len() > 0 && b[0] == 0x23 {
        strip_hashes(b.drop_first())
    } else {
        b
    }
}

pub open spec fn is_continuation(b: u8) -> bool {
    0x80 <= b < 0xc0
}

pub open spec fn hex_value(b: u8) -> Option<nat> {
    if 0x30 <= b <= 0x39 {
        Some((b - 0x30) as nat)
    } else if 0x61 <= b <= 0x66 {
        Some((b - 0x61 + 10) as nat)
    } else if 0x41 <= b <= 0x46 {
        Some((b - 0x41 + 10) as nat)
    } else {
        None
    }
}

/// A byte read from two text bytes as base-16 digits; a leading `+` is
/// allowed before a single digit.
pub open spec fn hex_pair(a: u8, b: u8) -> Option<u8> {
    if a == 0x2b {
        match hex_value(b) {
            Some(v) => Some(v as u8),
            None => None,
        }
    } else {
        match (hex_value(a), hex_value(b)) {
            (Some(x), Some(y)) => Some((x * 16 + y) as u8),
            _ => None,
        }
    }
}

/// The components of `#rrggbb` (any number of leading `#`), if all three read.
pub open spec fn hex_rgb(h: Seq<char>) -> Option<(u8, u8, u8)> {
    let t = strip_hashes(encode_utf8(h));
    if t.len() == 6 {
        match (hex_pair(t[0], t[1]), hex_pair(t[2], t[3]), hex_pair(t[4], t[5])) {
            (Some(r), Some(g), Some(b)) => Some((r, g, b)),
            _ => None,
        }
    } else {
        None
    }
}

/// A hex colour whose digit pairs fall on character boundaries.
pub open spec fn hex_sliceable(h: Seq<char>) -> bool {
    let t = strip_hashes(encode_utf8(h));
    t.len() == 6 ==> !is_continuation(t[2]) && !is_continuation(t[4])
}

/// The components of a colour: named and `r,g,b` colours give theirs, a hex
/// colour gives its digits when they read, `auto` gives the first three values
/// of the image's top-left pixel (zeros when it has fewer), the others none.
/// The components of a colour: named, RGB and well-formed hex colours have
/// them; `auto`, `blur` and `none` have none.
pub open spec fn color_rgb(c: Color<Seq<char>>) -> Option<(u8, u8, u8)> {
    match c {
        Color::Named(n) => Some(named_color_rgb(n)),
        Color::Rgb(r, g, b) => Some((r, g, b)),
        Color::Hex(h) => hex_rgb(h),
        _ => None,
    }
}

fn hex_value_of(b: u8) -> (r: Option<u8>)
    ensures
        match hex_value(b) {
            Some(v) => r == Some(v as u8),
            None => r is None,
        },
{
    if 0x30 <= b && b <= 0x39 {
        Some(b - 0x30)
    } else if 0x61 <= b && b <= 0x66 {
        Some(b - 0x61 + 10)
    } else if 0x41 <= b && b <= 0x46 {
        Some(b - 0x41 + 10)
    } else {
        None
    }
}

fn hex_pair_of(a: u8, b: u8) -> (r: Option<u8>)
    ensures
        r == hex_pair(a, b),
{
    if a == 0x2b {
        hex_value_of(b)
    } else {
        match (hex_value_of(a), hex_value_of(b)) {
            (Some(x), Some(y)) => Some(x * 16 + y),
            _ => None,
        }
    }
}

impl Color<String> {
    /// The colour's components; `auto`, `blur` and `none` have none.
    pub fn to_rgb(&self) -> (r: Option<(u8, u8, u8)>)
        requires
            self@ matches Color::Hex(h) ==> hex_sliceable(h),
        ensures
            r == color_rgb(self@),
    {
        match self {
            Color::Named(named) => {
                let c = named.to_rgb();
                match c {
                    Color::Rgb(r, g, b) => Some((r, g, b)),
                    _ => None,
                }
            },
            Color::Rgb(r, g, b) => Some((*r, *g, *b)),
            Color::Hex(hex) => {
                let bytes = hex.as_str().as_bytes();
                let n = bytes.len();
                let mut i: usize = 0;
                proof {
                    assert(bytes@.subrange(0, n as int) =~= bytes@);
                }
                while i < n && bytes[i] == 0x23
                    invariant
                        n == bytes@.len(),
                        i <= n,
                        strip_hashes(bytes@) == strip_hashes(bytes@.subrange(i as int, n as int)),
                    decreases n - i,
                {
                    proof {
                        assert(bytes@.subrange(i as int, n as int).drop_first() =~= bytes@.subrange(
                            i + 1,
                            n as int,
                        ));
                    }
                    i = i + 1;
                }
                proof {
                    let t = bytes@.subrange(i as int, n as int);
                    if t.len() > 0 {
                        assert(t[0] == bytes@[i as int]);
                    }
                    assert(strip_hashes(t) == t);
                }
                if n - i == 6 {
                    let rr = hex_pair_of(bytes[i], bytes[i + 1]);
                    let gg = hex_pair_of(bytes[i + 2], bytes[i + 3]);
                    let bb = hex_pair_of(bytes[i + 4], bytes[i + 5]);
                    match (rr, gg, bb) {
                        (Some(r), Some(g), Some(b)) => Some((r, g, b)),
                        _ => None,
                    }
                } else {
                    None
                }
            },
            _ => None,
        }
    }
}

/// The text `Display` writes for a colour.
pub open spec fn color_text(c: Color<Seq<char>>) -> Seq<char> {
    match c {
        Color::Named(n) => named_color_name(n),
        Color::Hex(h) => h,
        Color::Rgb(r, g, b) => crate::text::nat_text(r as nat) + seq![','] + crate::text::nat_text(
            g as nat,
        ) + seq![','] + crate::text::nat_text(b as nat),
        Color::Auto => "auto"@,
        Color::Blur => "blur"@,
        Color::NoColor => "none"@,
    }
}

impl Color<String> {
    /// The text `Display` writes for the colour.
    pub fn to_text(&self) -> (r: String)
        ensures
            r@ == color_text(self@),
    {
        let mut out: Vec<char> = Vec::new();
        match self {
            Color::Named(n) => push_str(&mut out, n.name()),
            Color::Hex(h) => push_str(&mut out, h.as_str()),
            Color::Rgb(r, g, b) => {
                push_nat(&mut out, *r as u64);
                out.push(',');
                push_nat(&mut out, *g as u64);
                out.push(',');
                push_nat(&mut out, *b as u64);
            },
            Color::Auto => push_str(&mut out, "auto"),
            Color::Blur => push_str(&mut out, "blur"),
            Color::NoColor => push_str(&mut out, "none"),
        }
        proof {
            assert(out@ =~= color_text(self@));
        }
        string_of(&out)
    }
}

} // verus!
