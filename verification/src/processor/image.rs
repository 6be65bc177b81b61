//! What the processing of one image decides from the image's size and bands
//! and from the filters asked for. The pixel work itself is done elsewhere, by
//! an image library, following these plans.
use vstd::prelude::*;
use crate::imagorpath::color::Color;
use crate::imagorpath::filter::{
    padding_values, Filter, LabelParams, LabelPosition, PaddingParams, RoundedCornerParams,
};
use crate::imagorpath::params::{Fit, Params};
use crate::imagorpath::type_utils::F32;
use crate::text::{str_chars, string_of};

verus! {

/// Why processing an image failed.
#[derive(Debug, Clone, PartialEq, Eq)]
pub enum ProcessError {
    ImageProcessingError(String),
    ImageLoadError,
}

impl ProcessError {
    /// The message the service reports.
    pub fn message(&self) -> (r: String)
        ensures
            match self {
                ProcessError::ImageProcessingError(m) => r@ == "Image processing failed: "@ + m@,
                ProcessError::ImageLoadError => r@ == "Failed to load image"@,
            },
    {
        match self {
            ProcessError::ImageProcessingError(m) => {
                let mut out = str_chars("Image processing failed: ");
                crate::text::push_str(&mut out, m.as_str());
                string_of(&out)
            },
            ProcessError::ImageLoadError => string_of(&str_chars("Failed to load image")),
        }
    }
}

/// What the decisions read of an image: its width, its full height, the
/// height of one page (frame), and whether it has an alpha band.
#[derive(Debug, Clone, Copy, PartialEq, Eq, Structural)]
pub struct ImageInfo {
    pub width: i32,
    pub height: i32,
    pub page_height: i32,
    pub bands: i32,
    pub has_alpha: bool,
}

impl ImageInfo {
    /// An image has a positive width and page height, and its full height
    /// holds at least one page.
    pub open spec fn wf(self) -> bool {
        &&& self.width >= 1
        &&& self.page_height >= 1
        &&& self.height >= self.page_height
    }

    /// An image is animated when it holds more than one page.
    pub fn is_animated(&self) -> (r: bool)
        ensures
            r == (self.height > self.page_height),
    {
        self.height > self.page_height
    }
}

/// Integer division that rounds toward zero, as Rust's `/` does.
pub open spec fn div_toward_zero(a: int, b: int) -> int
    recommends
        b > 0,
{
    if a >= 0 {
        a / b
    } else {
        -((-a) / b)
    }
}

fn half_toward_zero(a: i64) -> (r: i64)
    requires
        a > i64::MIN,
    ensures
        r == div_toward_zero(a as int, 2),
{
    if a >= 0 {
        a / 2
    } else {
        -((-a) / 2)
    }
}

/// The size that a resize aims at: a missing side follows the image's aspect
/// ratio (the product divided with rounding toward zero) and, unless
/// upscaling, does not exceed the image's own.
pub open spec fn target_dimensions(info: ImageInfo, width: Option<i32>, height: Option<i32>, upscale: bool) -> (int, int) {
    match (width, height) {
        (None, None) => (info.width as int, info.page_height as int),
        (None, Some(h)) => {
            let w = div_toward_zero(info.width * h, info.page_height as int);
            (
                if !upscale && w > info.width {
                    info.width as int
                } else {
                    w
                },
                h as int,
            )
        },
        (Some(w), None) => {
            let h = div_toward_zero(info.page_height * w, info.width as int);
            (
                w as int,
                if !upscale && h > info.page_height {
                    info.page_height as int
                } else {
                    h
                },
            )
        },
        (Some(w), Some(h)) => (w as int, h as int),
    }
}

/// The product that the aspect-ratio computation forms fits in 32 bits, as
/// the service's arithmetic needs.
pub open spec fn dimensions_fit(info: ImageInfo, width: Option<i32>, height: Option<i32>) -> bool {
    match (width, height) {
        (None, Some(h)) => i32::MIN <= info.width * h <= i32::MAX,
        (Some(w), None) => i32::MIN <= info.page_height * w <= i32::MAX,
        _ => true,
    }
}

/// Division rounding toward zero of a product that fits 32 bits by a
/// positive divisor.
fn div_product(a: i64, b: i64) -> (r: i64)
    requires
        i32::MIN <= a <= i32::MAX,
        b >= 1,
    ensures
        r == div_toward_zero(a as int, b as int),
        i32::MIN <= r <= i32::MAX,
{
    if a >= 0 {
        let q = a / b;
        proof {
            assert(0 <= q <= a) by (nonlinear_arith)
                requires
                    a >= 0,
                    b >= 1,
                    q == a / b,
            {
            }
        }
        q
    } else {
        let n = -a;
        let q = n / b;
        proof {
            assert(0 <= q <= n) by (nonlinear_arith)
                requires
                    n >= 0,
                    b >= 1,
                    q == n / b,
            {
            }
        }
        -q
    }
}

impl ImageInfo {
    /// The size a resize aims at, from the sizes a path asks for.
    pub fn calculate_dimensions(&self, params: &Params, upscale: bool) -> (r: (i32, i32))
        requires
            self.wf(),
            dimensions_fit(*self, params.width, params.height),
        ensures
            (r.0 as int, r.1 as int) == target_dimensions(*self, params.width, params.height, upscale),
    {
        match (params.width, params.height) {
            (None, None) => (self.width, self.page_height),
            (None, Some(h)) => {
                let w0 = div_product((self.width as i64) * (h as i64), self.page_height as i64);
                let w = if !upscale && w0 > self.width as i64 {
                    self.width as i64
                } else {
                    w0
                };
                (w as i32, h)
            },
            (Some(w), None) => {
                let h0 = div_product((self.page_height as i64) * (w as i64), self.width as i64);
                let h = if !upscale && h0 > self.page_height as i64 {
                    self.page_height as i64
                } else {
                    h0
                };
                (w, h as i32)
            },
            (Some(w), Some(h)) => (w, h),
        }
    }
}

/// How a thumbnail treats the box it is given.
#[derive(Debug, Clone, Copy, PartialEq, Eq, Structural)]
pub enum ThumbnailSize {
    /// Shrink or grow to fit inside the box.
    Both,
    /// Only shrink.
    Down,
    /// Fill the box exactly, ignoring the aspect ratio.
    Force,
}

/// What a resize does.
#[derive(Debug, Clone, Copy, PartialEq, Eq, Structural)]
pub enum ResizePlan {
    /// The image stays as it is.
    Keep,
    /// The image becomes a thumbnail of the given box.
    Thumbnail { width: i32, height: i32, size: ThumbnailSize },
}

/// A resize happens only for a fit mode, and only when upscaling or when the
/// box is smaller than the image on a side.
pub open spec fn resize_plan_of(info: ImageInfo, width: i32, height: i32, fit: Option<Fit>, upscale: bool) -> ResizePlan {
    let should = upscale || width < info.width || height < info.page_height;
    match fit {
        Some(Fit::FitIn) => if should {
            ResizePlan::Thumbnail { width, height, size: ThumbnailSize::Both }
        } else {
            ResizePlan::Keep
        },
        Some(Fit::Stretch) => if should {
            ResizePlan::Thumbnail { width, height, size: ThumbnailSize::Force }
        } else {
            ResizePlan::Keep
        },
        None => ResizePlan::Keep,
    }
}

impl ImageInfo {
    /// Whether and how the image is resized to the box `width` x `height`.
    pub fn resize_plan(&self, width: i32, height: i32, fit: Option<Fit>, upscale: bool) -> (r: ResizePlan)
        ensures
            r == resize_plan_of(*self, width, height, fit, upscale),
    {
        let should_resize = upscale || width < self.width || height < self.page_height;
        let size = match fit {
            Some(Fit::FitIn) => ThumbnailSize::Both,
            Some(Fit::Stretch) => ThumbnailSize::Force,
            None => return ResizePlan::Keep,
        };
        if should_resize {
            ResizePlan::Thumbnail { width, height, size }
        } else {
            ResizePlan::Keep
        }
    }
}

/// A coordinate: exact pixels, or a fraction of a side that the caller scales
/// in floating point.
#[derive(Debug, Clone, PartialEq, Eq)]
pub enum Offset<S = String> {
    Pixels(i32),
    Fraction(F32<S>),
}

impl View for Offset<String> {
    type V = Offset<Seq<char>>;

    open spec fn view(&self) -> Offset<Seq<char>> {
        match self {
            Offset::Pixels(p) => Offset::Pixels(*p),
            Offset::Fraction(f) => Offset::Fraction(f@),
        }
    }
}

/// How a label's lines line up.
#[derive(Debug, Clone, Copy, PartialEq, Eq, Structural)]
pub enum TextAlign {
    Low,
    Centre,
    High,
}

/// Where and how a label is drawn.
#[derive(Debug, Clone, PartialEq, Eq)]
pub struct LabelLayout<S = String> {
    pub x: Offset<S>,
    pub y: Offset<S>,
    pub align: TextAlign,
    pub alpha: u8,
    pub font: S,
}

impl View for LabelLayout<String> {
    type V = LabelLayout<Seq<char>>;

    open spec fn view(&self) -> LabelLayout<Seq<char>> {
        LabelLayout { x: self.x@, y: self.y@, align: self.align, alpha: self.alpha, font: self.font@ }
    }
}

/// The horizontal place of a label on an image `width` wide: centre, right
/// edge, left edge, pixels from the left (from the right when negative), or a
/// fraction of the width; a vertical word puts it at the left.
pub open spec fn label_x_of(width: int, pos: LabelPosition<Seq<char>>) -> Offset<Seq<char>> {
    match pos {
        LabelPosition::Center => Offset::Pixels((width / 2) as i32),
        LabelPosition::Right => Offset::Pixels(width as i32),
        LabelPosition::Left => Offset::Pixels(0),
        LabelPosition::Pixels(px) => Offset::Pixels(
            (if px < 0 {
                width + px
            } else {
                px as int
            }) as i32,
        ),
        LabelPosition::Percentage(pct) => Offset::Fraction(pct),
        _ => Offset::Pixels(0),
    }
}

/// The vertical place of a label of text height `size` on an image `height`
/// tall: centred, top, bottom, pixels from the top (from the bottom when
/// negative), or a fraction of the height; a horizontal word puts it at the top.
pub open spec fn label_y_of(height: int, size: int, pos: LabelPosition<Seq<char>>) -> Offset<Seq<char>> {
    match pos {
        LabelPosition::Center => Offset::Pixels(div_toward_zero(height - size, 2) as i32),
        LabelPosition::Top => Offset::Pixels(0),
        LabelPosition::Bottom => Offset::Pixels((height - size) as i32),
        LabelPosition::Pixels(px) => Offset::Pixels(
            (if px < 0 {
                height + px - size
            } else {
                px as int
            }) as i32,
        ),
        LabelPosition::Percentage(pct) => Offset::Fraction(pct),
        _ => Offset::Pixels(0),
    }
}

/// The text height as the service reads it, a 32-bit signed number.
pub open spec fn label_size(params: LabelParams<Seq<char>>) -> int {
    (params.size as i32) as int
}

/// The arithmetic of the vertical place stays within 32 bits.
pub open spec fn label_fits(height: int, params: LabelParams<Seq<char>>) -> bool {
    let size = label_size(params);
    &&& i32::MIN <= height - size <= i32::MAX
    &&& match params.y {
        LabelPosition::Pixels(px) => px < 0 ==> height + px - size >= i32::MIN,
        _ => true,
    }
}

pub open spec fn label_layout_of(width: int, height: int, params: LabelParams<Seq<char>>) -> LabelLayout<Seq<char>> {
    LabelLayout {
        x: label_x_of(width, params.x),
        y: label_y_of(height, label_size(params), params.y),
        align: match params.x {
            LabelPosition::Center => TextAlign::Centre,
            LabelPosition::Right => TextAlign::High,
            _ => TextAlign::Low,
        },
        alpha: match params.alpha {
            Some(a) => a,
            None => 255,
        },
        font: match params.font {
            Some(f) => f,
            None => "sans"@,
        },
    }
}

fn copy_f32(f: &F32) -> (r: F32)
    ensures
        r@ == f@,
{
    F32 { text: string_of(&str_chars(f.text.as_str())) }
}

fn copy_string(s: &String) -> (r: String)
    ensures
        r@ == s@,
{
    string_of(&str_chars(s.as_str()))
}

/// Where and how a label goes on an image `width` x `height`.
pub fn label_layout(width: i32, height: i32, params: &LabelParams) -> (r: LabelLayout)
    requires
        width >= 0,
        height >= 0,
        label_fits(height as int, params@),
    ensures
        r@ == label_layout_of(width as int, height as int, params@),
{
    let x = match &params.x {
        LabelPosition::Center => Offset::Pixels(width / 2),
        LabelPosition::Right => Offset::Pixels(width),
        LabelPosition::Left => Offset::Pixels(0),
        LabelPosition::Pixels(px) => Offset::Pixels(
            if *px < 0 {
                width + *px
            } else {
                *px
            },
        ),
        LabelPosition::Percentage(pct) => Offset::Fraction(copy_f32(pct)),
        _ => Offset::Pixels(0),
    };
    let size: i32 = params.size as i32;
    let y = match &params.y {
        LabelPosition::Center => {
            let d: i64 = (height as i64) - (size as i64);
            Offset::Pixels(half_toward_zero(d) as i32)
        },
        LabelPosition::Top => Offset::Pixels(0),
        LabelPosition::Bottom => Offset::Pixels(height - size),
        LabelPosition::Pixels(px) => Offset::Pixels(
            if *px < 0 {
                height + *px - size
            } else {
                *px
            },
        ),
        LabelPosition::Percentage(pct) => Offset::Fraction(copy_f32(pct)),
        _ => Offset::Pixels(0),
    };
    let align = match &params.x {
        LabelPosition::Center => TextAlign::Centre,
        LabelPosition::Right => TextAlign::High,
        _ => TextAlign::Low,
    };
    let alpha = match params.alpha {
        Some(a) => a,
        None => 255,
    };
    let font = match &params.font {
        Some(f) => copy_string(f),
        None => string_of(&str_chars("sans")),
    };
    LabelLayout { x, y, align, alpha, font }
}

/// How rounded corners are cut: the corner box, its circle (centre and
/// radius), and where the four corner masks go on the image.
#[derive(Debug, Clone, PartialEq, Eq)]
pub struct CornerLayout {
    pub rx: i32,
    pub ry: i32,
    pub centre_x: i32,
    pub centre_y: i32,
    pub radius: i32,
    pub corners: Vec<(i32, i32)>,
}

/// A radius as a 32-bit size: values past `i32::MAX` saturate.
pub open spec fn saturate_i32(v: u32) -> int {
    if v > i32::MAX {
        i32::MAX as int
    } else {
        v as int
    }
}

pub open spec fn corner_layout_of(width: int, height: int, params: RoundedCornerParams<Seq<char>>) -> (int, int, int, int, Seq<(int, int)>) {
    let rx = saturate_i32(params.rx);
    let ry = saturate_i32(
        match params.ry {
            Some(r) => r,
            None => params.rx,
        },
    );
    (rx, ry, rx / 2, ry / 2, seq![(0, 0), (width - rx, 0), (0, height - ry), (width - rx, height - ry)])
}

fn saturate(v: u32) -> (r: i32)
    ensures
        r as int == saturate_i32(v),
{
    if v > 2147483647 {
        2147483647
    } else {
        v as i32
    }
}

/// The rounded-corner cut of an image `width` x `height`: a corner box of
/// `rx` (saturated to 32 bits) by `ry` (else `rx`), a circle of radius half
/// of `rx` centred at half of each, corner masks at the four corners.
pub fn corner_layout(width: i32, height: i32, params: &RoundedCornerParams) -> (r: CornerLayout)
    requires
        width >= 0,
        height >= 0,
    ensures
        ({
            let l = corner_layout_of(width as int, height as int, params@);
            &&& r.rx == l.0
            &&& r.ry == l.1
            &&& r.centre_x == l.2
            &&& r.centre_y == l.3
            &&& r.radius == l.2
            &&& r.corners@.map_values(|c: (i32, i32)| (c.0 as int, c.1 as int)) == l.4
        }),
{
    let rx = saturate(params.rx);
    let ry = saturate(
        match params.ry {
            Some(r) => r,
            None => params.rx,
        },
    );
    let right: i32 = width - rx;
    let bottom: i32 = height - ry;
    let corners = vec![(0, 0), (right, 0), (0, bottom), (right, bottom)];
    proof {
        let l = corner_layout_of(width as int, height as int, params@);
        assert(corners@.map_values(|c: (i32, i32)| (c.0 as int, c.1 as int)) =~= l.4);
    }
    CornerLayout { rx, ry, centre_x: rx / 2, centre_y: ry / 2, radius: rx / 2, corners }
}

/// What fills the space that padding adds.
#[derive(Debug, Clone, Copy, PartialEq, Eq, Structural)]
pub enum FillMode {
    /// Transparent pixels.
    Transparent,
    /// A blurred, stretched copy of the image.
    Blurred,
    /// The colour's own pixels.
    Solid,
}

/// `none` fills with transparency; `blur` with a blurred copy unless the
/// image is animated; anything else with the colour itself.
pub open spec fn fill_mode_of(color: Color<Seq<char>>, animated: bool) -> FillMode {
    match color {
        Color::NoColor => FillMode::Transparent,
        Color::Blur => if !animated {
            FillMode::Blurred
        } else {
            FillMode::Solid
        },
        _ => FillMode::Solid,
    }
}

/// Where a padded image goes: the image's offset and the canvas size.
#[derive(Debug, Clone, Copy, PartialEq, Eq, Structural)]
pub struct FillLayout {
    pub left: i32,
    pub top: i32,
    pub total_width: i32,
    pub total_height: i32,
    pub mode: FillMode,
}

pub open spec fn fill_layout_of(info: ImageInfo, padding: PaddingParams, color: Color<Seq<char>>) -> (int, int, int, int, FillMode) {
    let (p_left, p_right, p_top, p_bottom) = padding_values(padding);
    (
        div_toward_zero(info.width - info.width, 2) + p_left,
        div_toward_zero(info.height - info.page_height, 2) + p_top,
        info.width + p_left + p_right,
        info.height + p_top + p_bottom,
        fill_mode_of(color, info.height > info.page_height),
    )
}

/// The padding's sums stay within 32 bits.
pub open spec fn fill_fits(info: ImageInfo, padding: PaddingParams) -> bool {
    let (p_left, p_right, p_top, p_bottom) = padding_values(padding);
    let left = div_toward_zero(info.width - info.width, 2) + p_left;
    let top = div_toward_zero(info.height - info.page_height, 2) + p_top;
    &&& i32::MIN <= left <= i32::MAX
    &&& i32::MIN <= top <= i32::MAX
    &&& i32::MIN <= info.width + p_left <= i32::MAX
    &&& i32::MIN <= info.width + p_left + p_right <= i32::MAX
    &&& i32::MIN <= info.height + p_top <= i32::MAX
    &&& i32::MIN <= info.height + p_top + p_bottom <= i32::MAX
}

impl ImageInfo {
    /// How padding is laid out around the image. `get_values` gives the
    /// padding as left, right, top and bottom: the image is centred on a canvas of its own
    /// width and height, moved by the left and top padding, on a canvas grown
    /// by the padding of each side.
    pub fn fill_layout(&self, padding: &PaddingParams, color: &Color) -> (r: FillLayout)
        requires
            self.wf(),
            fill_fits(*self, *padding),
        ensures
            ({
                let l = fill_layout_of(*self, *padding, color@);
                &&& r.left == l.0
                &&& r.top == l.1
                &&& r.total_width == l.2
                &&& r.total_height == l.3
                &&& r.mode == l.4
            }),
    {
        let (p_left, p_right, p_top, p_bottom) = padding.get_values();
        let width = self.width;
        let height = self.height;
        let left = (half_toward_zero((width as i64) - (self.width as i64)) + p_left as i64) as i32;
        let top = (half_toward_zero((height as i64) - (self.page_height as i64)) + p_top as i64) as i32;
        let total_width = width + p_left + p_right;
        let total_height = height + p_top + p_bottom;
        let animated = self.is_animated();
        let mode = match color {
            Color::NoColor => FillMode::Transparent,
            Color::Blur => if !animated {
                FillMode::Blurred
            } else {
                FillMode::Solid
            },
            _ => FillMode::Solid,
        };
        FillLayout { left, top, total_width, total_height, mode }
    }
}


/// What applying one filter to an image does.
#[derive(Debug, Clone, PartialEq, Eq)]
pub enum FilterStep {
    /// The image stays as it is.
    Keep,
    /// Cut rounded corners.
    RoundCorner(CornerLayout),
    /// Rotate by the angle in degrees.
    Rotate(i32),
    /// Draw the label.
    Label(LabelLayout),
    /// Turn to black and white.
    Grayscale,
    /// Shift every band by the brightness over 255.
    Brightness { value: i32, bands: u32 },
    /// Flatten the alpha band onto the filter's colour.
    Flatten,
    /// Stretch every band around the middle by the contrast.
    Contrast { value: i32, bands: u32 },
    /// Scale lightness and chroma and shift hue in LCh.
    Modulate { bands: u32 },
    /// Gaussian blur by the filter's sigma.
    Blur,
    /// Sharpen by the filter's amount.
    Sharpen,
    /// Pad the image.
    Pad(FillLayout),
    /// Scale the image by the filter's proportion.
    Proportion,
}

/// The filters for which the service has no operation yet; applying one of
/// them stops the service.
pub open spec fn step_missing(f: Filter<Seq<char>>) -> bool {
    ||| f is Hue
    ||| f is Saturation
    ||| f is Rgb
    ||| f is StripIcc
    ||| f is StripExif
}

/// What the arithmetic of a filter's layout needs to stay within 32 bits.
pub open spec fn step_fits(info: ImageInfo, f: Filter<Seq<char>>) -> bool {
    match f {
        Filter::Label(p) => label_fits(info.height as int, p),
        Filter::Padding(_, pad) => fill_fits(info, pad),
        _ => true,
    }
}

/// The number of bands a per-band operation works on: four with alpha, else three.
pub open spec fn band_count(info: ImageInfo) -> u32 {
    if info.has_alpha {
        4
    } else {
        3
    }
}

/// What a filter does to an image: blur and sharpen leave an animated image
/// alone, a background colour matters only with an alpha band, and filters
/// that are read for other stages leave the pixels alone.
pub open spec fn step_matches(info: ImageInfo, f: Filter<Seq<char>>, r: FilterStep) -> bool {
    let animated = info.height > info.page_height;
    match f {
        Filter::RoundCorner(p) => r matches FilterStep::RoundCorner(c) && ({
            let l = corner_layout_of(info.width as int, info.height as int, p);
            &&& c.rx == l.0
            &&& c.ry == l.1
            &&& c.centre_x == l.2
            &&& c.centre_y == l.3
            &&& c.radius == l.2
            &&& c.corners@.map_values(|c: (i32, i32)| (c.0 as int, c.1 as int)) == l.4
        }),
        Filter::Rotate(a) => r == FilterStep::Rotate(a),
        Filter::Label(p) => r matches FilterStep::Label(l) && l@ == label_layout_of(
            info.width as int,
            info.height as int,
            p,
        ),
        Filter::Grayscale => r == FilterStep::Grayscale,
        Filter::Brightness(v) => r == FilterStep::Brightness { value: v, bands: band_count(info) },
        Filter::BackgroundColor(_) => r == if info.has_alpha {
            FilterStep::Flatten
        } else {
            FilterStep::Keep
        },
        Filter::Contrast(v) => r == FilterStep::Contrast { value: v, bands: band_count(info) },
        Filter::Modulate(_, _, _) => r == FilterStep::Modulate { bands: band_count(info) },
        Filter::Blur(_) => r == if animated {
            FilterStep::Keep
        } else {
            FilterStep::Blur
        },
        Filter::Sharpen(_) => r == if animated {
            FilterStep::Keep
        } else {
            FilterStep::Sharpen
        },
        Filter::Padding(color, pad) => r matches FilterStep::Pad(l) && ({
            let e = fill_layout_of(info, pad, color);
            &&& l.left == e.0
            &&& l.top == e.1
            &&& l.total_width == e.2
            &&& l.total_height == e.3
            &&& l.mode == e.4
        }),
        Filter::Proportion(_) => r == FilterStep::Proportion,
        _ => r == FilterStep::Keep,
    }
}

impl ImageInfo {
    /// What applying `filter` to this image does.
    pub fn filter_step(&self, filter: &Filter) -> (r: FilterStep)
        requires
            self.wf(),
            !step_missing(filter@),
            step_fits(*self, filter@),
        ensures
            step_matches(*self, filter@, r),
    {
        let bands: u32 = if self.has_alpha {
            4
        } else {
            3
        };
        let animated = self.is_animated();
        match filter {
            Filter::RoundCorner(p) => FilterStep::RoundCorner(corner_layout(self.width, self.height, p)),
            Filter::Rotate(a) => FilterStep::Rotate(*a),
            Filter::Label(p) => FilterStep::Label(label_layout(self.width, self.height, p)),
            Filter::Grayscale => FilterStep::Grayscale,
            Filter::Brightness(v) => FilterStep::Brightness { value: *v, bands },
            Filter::BackgroundColor(_) => if self.has_alpha {
                FilterStep::Flatten
            } else {
                FilterStep::Keep
            },
            Filter::Contrast(v) => FilterStep::Contrast { value: *v, bands },
            Filter::Modulate(_, _, _) => FilterStep::Modulate { bands },
            Filter::Blur(_) => if animated {
                FilterStep::Keep
            } else {
                FilterStep::Blur
            },
            Filter::Sharpen(_) => if animated {
                FilterStep::Keep
            } else {
                FilterStep::Sharpen
            },
            Filter::Padding(color, pad) => FilterStep::Pad(self.fill_layout(pad, color)),
            Filter::Proportion(_) => FilterStep::Proportion,
            _ => FilterStep::Keep,
        }
    }
}


/// A label at a pixel position sits that many pixels from the left edge, or
/// from the top; a negative position counts back from the right edge, or from
/// the bottom less the text height. Nothing else moves it.
pub proof fn law_label_pixel_positions(width: int, height: int, params: LabelParams<Seq<char>>)
    ensures
        params.x matches LabelPosition::Pixels(px) ==> (px >= 0 ==> label_layout_of(width, height, params).x
            == Offset::<Seq<char>>::Pixels(px)),
        params.x matches LabelPosition::Pixels(px) ==> (px < 0 && i32::MIN <= width + px <= i32::MAX
            ==> label_layout_of(width, height, params).x == Offset::<Seq<char>>::Pixels(
            (width + px) as i32,
        )),
        params.y matches LabelPosition::Pixels(py) ==> (py >= 0 ==> label_layout_of(width, height, params).y
            == Offset::<Seq<char>>::Pixels(py)),
{
}

} // verus!
