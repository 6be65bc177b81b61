//! The filters a path can ask for, and their parameters.
use vstd::prelude::*;
use super::color::Color;
use super::type_utils::F32;
use crate::text::{ascii_lower, int_text, push_int, push_str, str_chars, string_of};

verus! {

/// One image operation named in a path.
#[derive(Debug, Clone, PartialEq, Eq)]
pub enum Filter<S = String> {
    BackgroundColor(Color<S>),
    Blur(F32<S>),
    Brightness(i32),
    Contrast(i32),
    Fill(Color<S>),
    Focal(FocalParams<S>),
    Format(ImageType),
    Grayscale,
    Hue(F32<S>),
    Label(LabelParams<S>),
    MaxBytes(usize),
    MaxFrames(usize),
    Modulate(F32<S>, F32<S>, F32<S>),
    Orient(i32),
    Padding(Color<S>, PaddingParams),
    Page(usize),
    Dpi(u32),
    Proportion(F32<S>),
    Quality(u8),
    Rgb(F32<S>, F32<S>, F32<S>),
    Rotate(i32),
    RoundCorner(RoundedCornerParams<S>),
    Saturation(F32<S>),
    Sharpen(F32<S>),
    StripExif,
    StripIcc,
    StripMetadata,
    Upscale,
    Watermark(WatermarkParams<S>),
}

/// Output formats.
#[derive(Debug, Clone, Copy, PartialEq, Eq, Structural)]
pub enum ImageType {
    GIF,
    JPEG,
    PNG,
    MAGICK,
    PDF,
    SVG,
    TIFF,
    WEBP,
    HEIF,
    BMP,
    AVIF,
    JP2K,
}

/// Padding on all sides, on vertical and horizontal sides, or on each side.
#[derive(Debug, Clone, Copy, PartialEq, Eq, Structural)]
pub enum PaddingParams {
    All(i32),
    /// Vertical (top and bottom), then horizontal (left and right).
    VerticalHorizontal(i32, i32),
    /// Top, right, bottom, left.
    FourSides(i32, i32, i32, i32),
}

#[derive(Debug, Clone, PartialEq, Eq)]
pub struct WatermarkParams<S = String> {
    pub image: S,
    pub x: WatermarkPosition<S>,
    pub y: WatermarkPosition<S>,
    pub alpha: u8,
    pub w_ratio: Option<F32<S>>,
    pub h_ratio: Option<F32<S>>,
}

#[derive(Debug, Clone, PartialEq, Eq)]
pub enum WatermarkPosition<S = String> {
    Pixels(i32),
    Percentage(F32<S>),
    Left,
    Right,
    Center,
    Top,
    Bottom,
    Repeat,
}

#[derive(Debug, Clone, PartialEq, Eq)]
pub struct RoundedCornerParams<S = String> {
    pub rx: u32,
    pub ry: Option<u32>,
    pub color: Option<Color<S>>,
}

#[derive(Debug, Clone, PartialEq, Eq)]
pub struct LabelParams<S = String> {
    pub text: S,
    pub x: LabelPosition<S>,
    pub y: LabelPosition<S>,
    pub size: u32,
    pub color: Color<S>,
    pub alpha: Option<u8>,
    pub font: Option<S>,
}

#[derive(Debug, Clone, PartialEq, Eq)]
pub enum LabelPosition<S = String> {
    Pixels(i32),
    Percentage(F32<S>),
    Left,
    Right,
    Center,
    Top,
    Bottom,
}

#[derive(Debug, PartialEq, Eq)]
pub enum FocalParams<S = String> {
    Region { top_left: (F32<S>, F32<S>), bottom_right: (F32<S>, F32<S>) },
    Point(F32<S>, F32<S>),
}

impl<S: Clone> Clone for FocalParams<S> {
    fn clone(&self) -> Self {
        match self {
            FocalParams::Region { top_left, bottom_right } => FocalParams::Region {
                top_left: (top_left.0.clone(), top_left.1.clone()),
                bottom_right: (bottom_right.0.clone(), bottom_right.1.clone()),
            },
            FocalParams::Point(x, y) => FocalParams::Point(x.clone(), y.clone()),
        }
    }
}

pub open spec fn opt_text(o: Option<String>) -> Option<Seq<char>> {
    match o {
        Some(s) => Some(s@),
        None => None,
    }
}

pub open spec fn opt_f32(o: Option<F32>) -> Option<F32<Seq<char>>> {
    match o {
        Some(f) => Some(f@),
        None => None,
    }
}

pub open spec fn opt_color(o: Option<Color>) -> Option<Color<Seq<char>>> {
    match o {
        Some(c) => Some(c@),
        None => None,
    }
}

impl View for WatermarkPosition<String> {
    type V = WatermarkPosition<Seq<char>>;

    open spec fn view(&self) -> WatermarkPosition<Seq<char>> {
        match self {
            WatermarkPosition::Pixels(p) => WatermarkPosition::Pixels(*p),
            WatermarkPosition::Percentage(f) => WatermarkPosition::Percentage(f@),
            WatermarkPosition::Left => WatermarkPosition::Left,
            WatermarkPosition::Right => WatermarkPosition::Right,
            WatermarkPosition::Center => WatermarkPosition::Center,
            WatermarkPosition::Top => WatermarkPosition::Top,
            WatermarkPosition::Bottom => WatermarkPosition::Bottom,
            WatermarkPosition::Repeat => WatermarkPosition::Repeat,
        }
    }
}

impl View for LabelPosition<String> {
    type V = LabelPosition<Seq<char>>;

    open spec fn view(&self) -> LabelPosition<Seq<char>> {
        match self {
            LabelPosition::Pixels(p) => LabelPosition::Pixels(*p),
            LabelPosition::Percentage(f) => LabelPosition::Percentage(f@),
            LabelPosition::Left => LabelPosition::Left,
            LabelPosition::Right => LabelPosition::Right,
            LabelPosition::Center => LabelPosition::Center,
            LabelPosition::Top => LabelPosition::Top,
            LabelPosition::Bottom => LabelPosition::Bottom,
        }
    }
}

impl View for WatermarkParams<String> {
    type V = WatermarkParams<Seq<char>>;

    open spec fn view(&self) -> WatermarkParams<Seq<char>> {
        WatermarkParams {
            image: self.image@,
            x: self.x@,
            y: self.y@,
            alpha: self.alpha,
            w_ratio: opt_f32(self.w_ratio),
            h_ratio: opt_f32(self.h_ratio),
        }
    }
}

impl View for RoundedCornerParams<String> {
    type V = RoundedCornerParams<Seq<char>>;

    open spec fn view(&self) -> RoundedCornerParams<Seq<char>> {
        RoundedCornerParams { rx: self.rx, ry: self.ry, color: opt_color(self.color) }
    }
}

impl View for LabelParams<String> {
    type V = LabelParams<Seq<char>>;

    open spec fn view(&self) -> LabelParams<Seq<char>> {
        LabelParams {
            text: self.text@,
            x: self.x@,
            y: self.y@,
            size: self.size,
            color: self.color@,
            alpha: self.alpha,
            font: opt_text(self.font),
        }
    }
}

impl View for FocalParams<String> {
    type V = FocalParams<Seq<char>>;

    open spec fn view(&self) -> FocalParams<Seq<char>> {
        match self {
            FocalParams::Region { top_left, bottom_right } => FocalParams::Region {
                top_left: (top_left.0@, top_left.1@),
                bottom_right: (bottom_right.0@, bottom_right.1@),
            },
            FocalParams::Point(x, y) => FocalParams::Point(x@, y@),
        }
    }
}

impl View for Filter<String> {
    type V = Filter<Seq<char>>;

    open spec fn view(&self) -> Filter<Seq<char>> {
        match self {
            Filter::BackgroundColor(c) => Filter::BackgroundColor(c@),
            Filter::Blur(f) => Filter::Blur(f@),
            Filter::Brightness(v) => Filter::Brightness(*v),
            Filter::Contrast(v) => Filter::Contrast(*v),
            Filter::Fill(c) => Filter::Fill(c@),
            Filter::Focal(f) => Filter::Focal(f@),
            Filter::Format(t) => Filter::Format(*t),
            Filter::Grayscale => Filter::Grayscale,
            Filter::Hue(f) => Filter::Hue(f@),
            Filter::Label(l) => Filter::Label(l@),
            Filter::MaxBytes(v) => Filter::MaxBytes(*v),
            Filter::MaxFrames(v) => Filter::MaxFrames(*v),
            Filter::Modulate(b, s, h) => Filter::Modulate(b@, s@, h@),
            Filter::Orient(v) => Filter::Orient(*v),
            Filter::Padding(c, p) => Filter::Padding(c@, *p),
            Filter::Page(v) => Filter::Page(*v),
            Filter::Dpi(v) => Filter::Dpi(*v),
            Filter::Proportion(f) => Filter::Proportion(f@),
            Filter::Quality(v) => Filter::Quality(*v),
            Filter::Rgb(r, g, b) => Filter::Rgb(r@, g@, b@),
            Filter::Rotate(v) => Filter::Rotate(*v),
            Filter::RoundCorner(r) => Filter::RoundCorner(r@),
            Filter::Saturation(f) => Filter::Saturation(f@),
            Filter::Sharpen(f) => Filter::Sharpen(f@),
            Filter::StripExif => Filter::StripExif,
            Filter::StripIcc => Filter::StripIcc,
            Filter::StripMetadata => Filter::StripMetadata,
            Filter::Upscale => Filter::Upscale,
            Filter::Watermark(w) => Filter::Watermark(w@),
        }
    }
}

/// The name of a filter.
pub open spec fn filter_name(f: Filter<Seq<char>>) -> Seq<char> {
    match f {
        Filter::BackgroundColor(_) => "background_color"@,
        Filter::Blur(_) => "blur"@,
        Filter::Brightness(_) => "brightness"@,
        Filter::Contrast(_) => "contrast"@,
        Filter::Fill(_) => "fill"@,
        Filter::Focal(_) => "focal"@,
        Filter::Format(_) => "format"@,
        Filter::Grayscale => "grayscale"@,
        Filter::Hue(_) => "hue"@,
        Filter::Label(_) => "label"@,
        Filter::MaxBytes(_) => "max_bytes"@,
        Filter::MaxFrames(_) => "max_frames"@,
        Filter::Modulate(_, _, _) => "modulate"@,
        Filter::Orient(_) => "orient"@,
        Filter::Padding(_, _) => "padding"@,
        Filter::Page(_) => "page"@,
        Filter::Dpi(_) => "dpi"@,
        Filter::Proportion(_) => "proportion"@,
        Filter::Quality(_) => "quality"@,
        Filter::Rgb(_, _, _) => "rgb"@,
        Filter::Rotate(_) => "rotate"@,
        Filter::RoundCorner(_) => "round_corner"@,
        Filter::Saturation(_) => "saturation"@,
        Filter::Sharpen(_) => "sharpen"@,
        Filter::StripExif => "strip_exif"@,
        Filter::StripIcc => "strip_icc"@,
        Filter::StripMetadata => "strip_metadata"@,
        Filter::Upscale => "upscale"@,
        Filter::Watermark(_) => "watermark"@,
    }
}

impl Filter<String> {
    /// The filter's name.
    pub fn name(&self) -> (r: String)
        ensures
            r@ == filter_name(self@),
    {
        let name = match self {
            Filter::BackgroundColor(_) => "background_color",
            Filter::Blur(_) => "blur",
            Filter::Brightness(_) => "brightness",
            Filter::Contrast(_) => "contrast",
            Filter::Fill(_) => "fill",
            Filter::Focal(_) => "focal",
            Filter::Format(_) => "format",
            Filter::Grayscale => "grayscale",
            Filter::Hue(_) => "hue",
            Filter::Label(_) => "label",
            Filter::MaxBytes(_) => "max_bytes",
            Filter::MaxFrames(_) => "max_frames",
            Filter::Modulate(_, _, _) => "modulate",
            Filter::Orient(_) => "orient",
            Filter::Padding(_, _) => "padding",
            Filter::Page(_) => "page",
            Filter::Dpi(_) => "dpi",
            Filter::Proportion(_) => "proportion",
            Filter::Quality(_) => "quality",
            Filter::Rgb(_, _, _) => "rgb",
            Filter::Rotate(_) => "rotate",
            Filter::RoundCorner(_) => "round_corner",
            Filter::Saturation(_) => "saturation",
            Filter::Sharpen(_) => "sharpen",
            Filter::StripExif => "strip_exif",
            Filter::StripIcc => "strip_icc",
            Filter::StripMetadata => "strip_metadata",
            Filter::Upscale => "upscale",
            Filter::Watermark(_) => "watermark",
        };
        string_of(&str_chars(name))
    }
}

/// The name `Display` writes for a format.
pub open spec fn image_type_text(t: ImageType) -> Seq<char> {
    match t {
        ImageType::GIF => "gif"@,
        ImageType::JPEG => "jpeg"@,
        ImageType::PNG => "png"@,
        ImageType::MAGICK => "magick"@,
        ImageType::PDF => "pdf"@,
        ImageType::SVG => "svg"@,
        ImageType::TIFF => "tiff"@,
        ImageType::WEBP => "webp"@,
        ImageType::HEIF => "heif"@,
        ImageType::BMP => "bmp"@,
        ImageType::AVIF => "avif"@,
        ImageType::JP2K => "jp2k"@,
    }
}

proof fn lemma_image_type_text_lower(t: ImageType)
    ensures
        crate::text::all_ascii(image_type_text(t)),
        crate::text::ascii_lower(image_type_text(t)) == image_type_text(t),
{
    reveal_strlit("gif");
    reveal_strlit("jpeg");
    reveal_strlit("png");
    reveal_strlit("magick");
    reveal_strlit("pdf");
    reveal_strlit("svg");
    reveal_strlit("tiff");
    reveal_strlit("webp");
    reveal_strlit("heif");
    reveal_strlit("bmp");
    reveal_strlit("avif");
    reveal_strlit("jp2k");
    let x = image_type_text(t);
    assert(crate::text::ascii_lower(x) =~= x);
}

pub open spec fn animation_supported(t: ImageType) -> bool {
    t == ImageType::GIF || t == ImageType::WEBP
}

impl ImageType {
    /// The format's name as `Display` writes it.
    pub fn as_str(&self) -> (r: &'static str)
        ensures
            r@ == image_type_text(*self),
    {
        match self {
            ImageType::GIF => "gif",
            ImageType::JPEG => "jpeg",
            ImageType::PNG => "png",
            ImageType::MAGICK => "magick",
            ImageType::PDF => "pdf",
            ImageType::SVG => "svg",
            ImageType::TIFF => "tiff",
            ImageType::WEBP => "webp",
            ImageType::HEIF => "heif",
            ImageType::BMP => "bmp",
            ImageType::AVIF => "avif",
            ImageType::JP2K => "jp2k",
        }
    }

    /// `image/` and the lower-cased name of the format.
    pub fn to_content_type(&self) -> (r: String)
        ensures
            r@ == "image/"@ + image_type_text(*self),
    {
        proof {
            lemma_image_type_text_lower(*self);
        }
        let lower = crate::text::str_to_lowercase(self.as_str());
        let mut out: Vec<char> = Vec::new();
        push_str(&mut out, "image/");
        push_str(&mut out, lower.as_str());
        string_of(&out)
    }

    /// Whether the format holds animations: GIF and WebP.
    pub fn is_animation_supported(&self) -> (r: bool)
        ensures
            r == animation_supported(*self),
    {
        match self {
            ImageType::GIF | ImageType::WEBP => true,
            _ => false,
        }
    }
}

/// Padding per side as (left, right, top, bottom).
pub open spec fn padding_values(p: PaddingParams) -> (i32, i32, i32, i32) {
    match p {
        PaddingParams::All(v) => (v, v, v, v),
        PaddingParams::VerticalHorizontal(vertical, horizontal) => (
            horizontal,
            horizontal,
            vertical,
            vertical,
        ),
        PaddingParams::FourSides(top, right, bottom, left) => (left, right, top, bottom),
    }
}

/// The text `Display` writes for a padding.
pub open spec fn padding_text(p: PaddingParams) -> Seq<char> {
    match p {
        PaddingParams::All(v) => int_text(v as int),
        PaddingParams::VerticalHorizontal(vertical, horizontal) => int_text(vertical as int)
            + seq![','] + int_text(horizontal as int),
        PaddingParams::FourSides(top, right, bottom, left) => int_text(top as int) + seq![',']
            + int_text(right as int) + seq![','] + int_text(bottom as int) + seq![','] + int_text(
            left as int,
        ),
    }
}

impl PaddingParams {
    /// Padding per side as (left, right, top, bottom).
    pub fn get_values(&self) -> (r: (i32, i32, i32, i32))
        ensures
            r == padding_values(*self),
    {
        match self {
            PaddingParams::All(value) => (*value, *value, *value, *value),
            PaddingParams::VerticalHorizontal(vertical, horizontal) => (
                *horizontal,
                *horizontal,
                *vertical,
                *vertical,
            ),
            PaddingParams::FourSides(top, right, bottom, left) => (*left, *right, *top, *bottom),
        }
    }

    /// The text `Display` writes for the padding.
    pub fn to_text(&self) -> (r: String)
        ensures
            r@ == padding_text(*self),
    {
        let mut out: Vec<char> = Vec::new();
        match self {
            PaddingParams::All(v) => push_int(&mut out, *v as i64),
            PaddingParams::VerticalHorizontal(v, h) => {
                push_int(&mut out, *v as i64);
                out.push(',');
                push_int(&mut out, *h as i64);
            },
            PaddingParams::FourSides(t, r, b, l) => {
                push_int(&mut out, *t as i64);
                out.push(',');
                push_int(&mut out, *r as i64);
                out.push(',');
                push_int(&mut out, *b as i64);
                out.push(',');
                push_int(&mut out, *l as i64);
            },
        }
        proof {
            assert(out@ =~= padding_text(*self));
        }
        string_of(&out)
    }
}

/// The text `Display` writes for a focal point or region.
pub open spec fn focal_text(f: FocalParams<Seq<char>>) -> Seq<char> {
    match f {
        FocalParams::Region { top_left, bottom_right } => top_left.0.text + seq!['x']
            + top_left.1.text + seq![':'] + bottom_right.0.text + seq!['x'] + bottom_right.1.text,
        FocalParams::Point(x, y) => x.text + seq!['x'] + y.text,
    }
}

impl FocalParams<String> {
    /// The text `Display` writes for the focal point or region.
    pub fn to_text(&self) -> (r: String)
        ensures
            r@ == focal_text(self@),
    {
        let mut out: Vec<char> = Vec::new();
        match self {
            FocalParams::Region { top_left, bottom_right } => {
                push_str(&mut out, top_left.0.as_str());
                out.push('x');
                push_str(&mut out, top_left.1.as_str());
                out.push(':');
                push_str(&mut out, bottom_right.0.as_str());
                out.push('x');
                push_str(&mut out, bottom_right.1.as_str());
            },
            FocalParams::Point(x, y) => {
                push_str(&mut out, x.as_str());
                out.push('x');
                push_str(&mut out, y.as_str());
            },
        }
        proof {
            assert(out@ =~= focal_text(self@));
        }
        string_of(&out)
    }
}

fn same_text(a: &String, b: &String) -> (r: bool)
    ensures
        r == (a@ == b@),
{
    *a == *b
}

fn same_opt_text(a: &Option<String>, b: &Option<String>) -> (r: bool)
    ensures
        r == (opt_text(*a) == opt_text(*b)),
{
    match (a, b) {
        (Some(x), Some(y)) => same_text(x, y),
        (None, None) => true,
        _ => false,
    }
}

fn same_opt_f32(a: &Option<F32>, b: &Option<F32>) -> (r: bool)
    ensures
        r == (opt_f32(*a) == opt_f32(*b)),
{
    match (a, b) {
        (Some(x), Some(y)) => x.same(y),
        (None, None) => true,
        _ => false,
    }
}

/// Whether two colours are the same.
pub fn same_color(a: &Color, b: &Color) -> (r: bool)
    ensures
        r == (a@ == b@),
{
    match (a, b) {
        (Color::Named(x), Color::Named(y)) => *x == *y,
        (Color::Hex(x), Color::Hex(y)) => same_text(x, y),
        (Color::Rgb(r1, g1, b1), Color::Rgb(r2, g2, b2)) => *r1 == *r2 && *g1 == *g2 && *b1 == *b2,
        (Color::Auto, Color::Auto) => true,
        (Color::Blur, Color::Blur) => true,
        (Color::NoColor, Color::NoColor) => true,
        _ => false,
    }
}

fn same_opt_color(a: &Option<Color>, b: &Option<Color>) -> (r: bool)
    ensures
        r == (opt_color(*a) == opt_color(*b)),
{
    match (a, b) {
        (Some(x), Some(y)) => same_color(x, y),
        (None, None) => true,
        _ => false,
    }
}

fn same_label_position(a: &LabelPosition, b: &LabelPosition) -> (r: bool)
    ensures
        r == (a@ == b@),
{
    match (a, b) {
        (LabelPosition::Pixels(x), LabelPosition::Pixels(y)) => *x == *y,
        (LabelPosition::Percentage(x), LabelPosition::Percentage(y)) => x.same(y),
        (LabelPosition::Left, LabelPosition::Left) => true,
        (LabelPosition::Right, LabelPosition::Right) => true,
        (LabelPosition::Center, LabelPosition::Center) => true,
        (LabelPosition::Top, LabelPosition::Top) => true,
        (LabelPosition::Bottom, LabelPosition::Bottom) => true,
        _ => false,
    }
}

fn same_watermark_position(a: &WatermarkPosition, b: &WatermarkPosition) -> (r: bool)
    ensures
        r == (a@ == b@),
{
    match (a, b) {
        (WatermarkPosition::Pixels(x), WatermarkPosition::Pixels(y)) => *x == *y,
        (WatermarkPosition::Percentage(x), WatermarkPosition::Percentage(y)) => x.same(y),
        (WatermarkPosition::Left, WatermarkPosition::Left) => true,
        (WatermarkPosition::Right, WatermarkPosition::Right) => true,
        (WatermarkPosition::Center, WatermarkPosition::Center) => true,
        (WatermarkPosition::Top, WatermarkPosition::Top) => true,
        (WatermarkPosition::Bottom, WatermarkPosition::Bottom) => true,
        (WatermarkPosition::Repeat, WatermarkPosition::Repeat) => true,
        _ => false,
    }
}

/// Whether two filters are the same.
pub fn same_filter(a: &Filter, b: &Filter) -> (r: bool)
    ensures
        r == (a@ == b@),
{
    match (a, b) {
        (Filter::BackgroundColor(x), Filter::BackgroundColor(y)) => same_color(x, y),
        (Filter::Blur(x), Filter::Blur(y)) => x.same(y),
        (Filter::Brightness(x), Filter::Brightness(y)) => *x == *y,
        (Filter::Contrast(x), Filter::Contrast(y)) => *x == *y,
        (Filter::Fill(x), Filter::Fill(y)) => same_color(x, y),
        (Filter::Focal(x), Filter::Focal(y)) => match (x, y) {
            (
                FocalParams::Region { top_left: t1, bottom_right: b1 },
                FocalParams::Region { top_left: t2, bottom_right: b2 },
            ) => t1.0.same(&t2.0) && t1.1.same(&t2.1) && b1.0.same(&b2.0) && b1.1.same(&b2.1),
            (FocalParams::Point(x1, y1), FocalParams::Point(x2, y2)) => x1.same(x2) && y1.same(y2),
            _ => false,
        },
        (Filter::Format(x), Filter::Format(y)) => *x == *y,
        (Filter::Grayscale, Filter::Grayscale) => true,
        (Filter::Hue(x), Filter::Hue(y)) => x.same(y),
        (Filter::Label(x), Filter::Label(y)) => same_text(&x.text, &y.text) && same_label_position(
            &x.x,
            &y.x,
        ) && same_label_position(&x.y, &y.y) && x.size == y.size && same_color(&x.color, &y.color)
            && x.alpha == y.alpha && same_opt_text(&x.font, &y.font),
        (Filter::MaxBytes(x), Filter::MaxBytes(y)) => *x == *y,
        (Filter::MaxFrames(x), Filter::MaxFrames(y)) => *x == *y,
        (Filter::Modulate(b1, s1, h1), Filter::Modulate(b2, s2, h2)) => b1.same(b2) && s1.same(s2)
            && h1.same(h2),
        (Filter::Orient(x), Filter::Orient(y)) => *x == *y,
        (Filter::Padding(c1, p1), Filter::Padding(c2, p2)) => same_color(c1, c2) && *p1 == *p2,
        (Filter::Page(x), Filter::Page(y)) => *x == *y,
        (Filter::Dpi(x), Filter::Dpi(y)) => *x == *y,
        (Filter::Proportion(x), Filter::Proportion(y)) => x.same(y),
        (Filter::Quality(x), Filter::Quality(y)) => *x == *y,
        (Filter::Rgb(r1, g1, b1), Filter::Rgb(r2, g2, b2)) => r1.same(r2) && g1.same(g2) && b1.same(
            b2,
        ),
        (Filter::Rotate(x), Filter::Rotate(y)) => *x == *y,
        (Filter::RoundCorner(x), Filter::RoundCorner(y)) => x.rx == y.rx && x.ry == y.ry
            && same_opt_color(&x.color, &y.color),
        (Filter::Saturation(x), Filter::Saturation(y)) => x.same(y),
        (Filter::Sharpen(x), Filter::Sharpen(y)) => x.same(y),
        (Filter::StripExif, Filter::StripExif) => true,
        (Filter::StripIcc, Filter::StripIcc) => true,
        (Filter::StripMetadata, Filter::StripMetadata) => true,
        (Filter::Upscale, Filter::Upscale) => true,
        (Filter::Watermark(x), Filter::Watermark(y)) => same_text(&x.image, &y.image)
            && same_watermark_position(&x.x, &y.x) && same_watermark_position(&x.y, &y.y) && x.alpha
            == y.alpha && same_opt_f32(&x.w_ratio, &y.w_ratio) && same_opt_f32(
            &x.h_ratio,
            &y.h_ratio,
        ),
        _ => false,
    }
}

} // verus!
