//! The imagor path grammar:
//! `[/][unsafe/][meta/][trim.../][crop/][fit-in/|stretch/][WxH/][halign/][valign/][smart/][filters:.../]image`,
//! every part optional.
use vstd::prelude::*;
use vstd::string::StrSliceExecFns;
use super::filter::{image_type_text, Filter, ImageType};
use super::params::{filter_views, Fit, HAlign, Params, ParamsModel, TrimBy, VAlign, F32};
use super::values::{
    color_at, focal_at, image_end, int_list_at, label_at, parse_color, parse_focal_point,
    parse_int_list, parse_label_params, parse_rounded_corner_params, parse_uint_list,
    parse_watermark_params, rounded_at, scan_image, uint_list_at, watermark_at,
};
use crate::cyberpunkpath::parse::{
    close_from, dims_crash, find_close, is_negative, lemma_close_from, lemma_name_end, name_end, opt_abs, opt_f32_view,
    parse_alignment, parse_crop, parse_dimensions, parse_trim, scan_name, spec_crop_at,
    spec_dims_at, spec_halign_at, spec_trim_at, spec_valign_at, Lexed, ParseError,
};
use crate::grammar::{
    char_at_is, decimal_at, int_at, lemma_decimal_at_end, parse_decimal,
    parse_i32, parse_uint, tag, uint_at,
};
use crate::text::{
    ascii_upper, has_at, int_text, str_chars, str_to_lowercase, str_to_uppercase, string_of,
    unicode_lowercase, unicode_uppercase,
};

verus! {

/// A path the imagor grammar reads.
#[derive(Debug)]
pub struct CyberpunkPath {
    pub path: String,
}

/// The format a name spells, upper-cased.
pub open spec fn format_of_text(up: Seq<char>) -> Option<ImageType> {
    if up == "GIF"@ {
        Some(ImageType::GIF)
    } else if up == "JPEG"@ {
        Some(ImageType::JPEG)
    } else if up == "PNG"@ {
        Some(ImageType::PNG)
    } else if up == "MAGICK"@ {
        Some(ImageType::MAGICK)
    } else if up == "PDF"@ {
        Some(ImageType::PDF)
    } else if up == "SVG"@ {
        Some(ImageType::SVG)
    } else if up == "TIFF"@ {
        Some(ImageType::TIFF)
    } else if up == "WEBP"@ {
        Some(ImageType::WEBP)
    } else if up == "HEIF"@ {
        Some(ImageType::HEIF)
    } else if up == "BMP"@ {
        Some(ImageType::BMP)
    } else if up == "AVIF"@ {
        Some(ImageType::AVIF)
    } else if up == "JP2K"@ {
        Some(ImageType::JP2K)
    } else {
        None
    }
}

pub open spec fn int_f32(v: int) -> F32<Seq<char>> {
    F32 { text: int_text(v) }
}

/// The filter that a lower-cased name and its argument text make: the argument
/// is read from its start, and what follows the value read is ignored.
pub open spec fn filter_value(kind: Seq<char>, a: Seq<char>) -> Option<Filter<Seq<char>>> {
    if kind == "backgroundcolor"@ {
        match color_at(a, 0) {
            Some((_, c)) => Some(Filter::BackgroundColor(c)),
            None => None,
        }
    } else if kind == "blur"@ {
        match decimal_at(a, 0) {
            Some((_, t)) => Some(Filter::Blur(F32 { text: t })),
            None => None,
        }
    } else if kind == "brightness"@ {
        match int_at(a, 0) {
            Some((_, v)) => Some(Filter::Brightness(v as i32)),
            None => None,
        }
    } else if kind == "contrast"@ {
        match int_at(a, 0) {
            Some((_, v)) => Some(Filter::Contrast(v as i32)),
            None => None,
        }
    } else if kind == "fill"@ {
        match color_at(a, 0) {
            Some((_, c)) => Some(Filter::Fill(c)),
            None => None,
        }
    } else if kind == "focal"@ {
        match focal_at(a, 0) {
            Some((_, f)) => Some(Filter::Focal(f)),
            None => None,
        }
    } else if kind == "format"@ {
        match format_of_text(unicode_uppercase(a)) {
            Some(t) => Some(Filter::Format(t)),
            None => None,
        }
    } else if kind == "grayscale"@ {
        Some(Filter::Grayscale)
    } else if kind == "hue"@ {
        match int_at(a, 0) {
            Some((_, v)) => Some(Filter::Hue(int_f32(v))),
            None => None,
        }
    } else if kind == "label"@ {
        match label_at(a, 0) {
            Some((_, l)) => Some(Filter::Label(l)),
            None => None,
        }
    } else if kind == "maxbytes"@ {
        match uint_at(a, 0, u64::MAX as nat) {
            Some((_, v)) => Some(Filter::MaxBytes(v as usize)),
            None => None,
        }
    } else if kind == "maxframes"@ {
        match uint_at(a, 0, u64::MAX as nat) {
            Some((_, v)) => Some(Filter::MaxFrames(v as usize)),
            None => None,
        }
    } else if kind == "modulate"@ {
        match uint_list_at(a, 0, u32::MAX as nat) {
            Some((_, vs)) => if vs.len() == 3 {
                Some(Filter::Modulate(int_f32(vs[0] as int), int_f32(vs[1] as int), int_f32(vs[2] as int)))
            } else {
                None
            },
            None => None,
        }
    } else if kind == "orient"@ {
        match int_at(a, 0) {
            Some((_, v)) => Some(Filter::Orient(v as i32)),
            None => None,
        }
    } else if kind == "page"@ {
        match uint_at(a, 0, u64::MAX as nat) {
            Some((_, v)) => Some(Filter::Page(v as usize)),
            None => None,
        }
    } else if kind == "dpi"@ {
        match uint_at(a, 0, u32::MAX as nat) {
            Some((_, v)) => Some(Filter::Dpi(v as u32)),
            None => None,
        }
    } else if kind == "proportion"@ {
        match decimal_at(a, 0) {
            Some((_, t)) => Some(Filter::Proportion(F32 { text: t })),
            None => None,
        }
    } else if kind == "quality"@ {
        match uint_at(a, 0, 255) {
            Some((_, v)) => Some(Filter::Quality(v as u8)),
            None => None,
        }
    } else if kind == "rgb"@ {
        match int_list_at(a, 0) {
            Some((_, vs)) => if vs.len() == 3 {
                Some(Filter::Rgb(int_f32(vs[0]), int_f32(vs[1]), int_f32(vs[2])))
            } else {
                None
            },
            None => None,
        }
    } else if kind == "rotate"@ {
        match int_at(a, 0) {
            Some((_, v)) => Some(Filter::Rotate(v as i32)),
            None => None,
        }
    } else if kind == "roundcorner"@ {
        match rounded_at(a, 0) {
            Some((_, r)) => Some(Filter::RoundCorner(r)),
            None => None,
        }
    } else if kind == "saturation"@ {
        match int_at(a, 0) {
            Some((_, v)) => Some(Filter::Saturation(int_f32(v))),
            None => None,
        }
    } else if kind == "sharpen"@ {
        match decimal_at(a, 0) {
            Some((_, t)) => Some(Filter::Sharpen(F32 { text: t })),
            None => None,
        }
    } else if kind == "stripexif"@ {
        Some(Filter::StripExif)
    } else if kind == "stripicc"@ {
        Some(Filter::StripIcc)
    } else if kind == "stripmetadata"@ {
        Some(Filter::StripMetadata)
    } else if kind == "upscale"@ {
        Some(Filter::Upscale)
    } else if kind == "watermark"@ {
        match watermark_at(a, 0) {
            Some((_, w)) => Some(Filter::Watermark(w)),
            None => None,
        }
    } else {
        None
    }
}

/// A filter: a name of letters, digits and `_`, then its arguments in balanced
/// parentheses, read by the name in lower case.
pub open spec fn filter_at(s: Seq<char>, pos: int) -> Option<(int, Filter<Seq<char>>)> {
    let ne = name_end(s, pos);
    if ne == pos || !has_at(s, ne, seq!['(']) || close_from(s, ne + 1, 0) is None {
        None
    } else {
        let c = close_from(s, ne + 1, 0).unwrap();
        match filter_value(unicode_lowercase(s.subrange(pos, ne)), s.subrange(ne + 1, c)) {
            Some(f) => Some((c + 1, f)),
            None => None,
        }
    }
}

pub proof fn lemma_filter_progress(s: Seq<char>, pos: int)
    requires
        0 <= pos <= s.len(),
    ensures
        filter_at(s, pos) matches Some((e, f)) ==> pos < e <= s.len(),
{
    lemma_name_end(s, pos);
    lemma_close_from(s, name_end(s, pos) + 1, 0);
}

/// Further filters, each after a `:`.
pub open spec fn more_filters(s: Seq<char>, pos: int) -> (int, Seq<Filter<Seq<char>>>)
    decreases s.len() - pos,
{
    if 0 <= pos <= s.len() && has_at(s, pos, seq![':']) {
        match filter_at(s, pos + 1) {
            None => (pos, seq![]),
            Some((e, f)) => {
                proof {
                    lemma_filter_progress(s, pos + 1);
                }
                let rest = more_filters(s, e);
                (rest.0, seq![f] + rest.1)
            },
        }
    } else {
        (pos, seq![])
    }
}

/// `filters:`, filters separated by `:` (possibly none), and an optional `/`.
pub open spec fn filters_at(s: Seq<char>, pos: int) -> Option<(int, Seq<Filter<Seq<char>>>)> {
    if !has_at(s, pos, "filters:"@) {
        None
    } else {
        let q = pos + "filters:"@.len();
        let l = match filter_at(s, q) {
            None => (q, seq![]),
            Some((e, f)) => {
                let rest = more_filters(s, e);
                (rest.0, seq![f] + rest.1)
            },
        };
        Some(
            (
                if has_at(s, l.0, seq!['/']) {
                    l.0 + 1
                } else {
                    l.0
                },
                l.1,
            ),
        )
    }
}

/// `fit-in/` or `stretch/`; both, as `fit-in/stretch/`, are read as `fit-in`.
pub open spec fn fit_at(s: Seq<char>, pos: int) -> (int, Option<Fit>) {
    if has_at(s, pos, "fit-in/"@) {
        let q = pos + "fit-in/"@.len();
        if has_at(s, q, "stretch/"@) {
            (q + "stretch/"@.len(), Some(Fit::FitIn))
        } else {
            (q, Some(Fit::FitIn))
        }
    } else if has_at(s, pos, "stretch/"@) {
        (pos + "stretch/"@.len(), Some(Fit::Stretch))
    } else {
        (pos, None)
    }
}

pub open spec fn some_f32(t: Option<Seq<char>>) -> Option<F32<Seq<char>>> {
    match t {
        Some(x) => Some(F32 { text: x }),
        None => None,
    }
}

/// The trim part as read: whether `trim` was there, from which corner, and the tolerance.
pub type TrimRead = (bool, Option<TrimBy>, Option<Seq<char>>);

/// The crop part as read: left, top, right, bottom.
pub type CropRead = (Seq<char>, Seq<char>, Seq<char>, Seq<char>);

/// The size part as kept: width and height without sign, and which were negative.
pub type DimsRead = (Option<i32>, Option<i32>, bool, bool);

/// The parts before the size: where they end, `meta/`, trim, crop and fit.
pub open spec fn imagor_head(s: Seq<char>) -> (int, bool, Option<TrimRead>, Option<CropRead>, Option<Fit>) {
    let p0 = if has_at(s, 0, seq!['/']) {
        1int
    } else {
        0
    };
    let p1 = if has_at(s, p0, "unsafe/"@) {
        p0 + "unsafe/"@.len()
    } else {
        p0
    };
    let meta = has_at(s, p1, "meta/"@);
    let p2 = if meta {
        p1 + "meta/"@.len()
    } else {
        p1
    };
    let trim = spec_trim_at(s, p2);
    let p3 = match trim {
        Some((e, _)) => e,
        None => p2,
    };
    let crop = spec_crop_at(s, p3);
    let p4 = match crop {
        Some((e, _)) => e,
        None => p3,
    };
    let (p5, fit) = fit_at(s, p4);
    (
        p5,
        meta,
        match trim {
            Some((_, t)) => Some(t),
            None => None,
        },
        match crop {
            Some((_, c)) => Some(c),
            None => None,
        },
        fit,
    )
}

/// The parameters that the parts read make.
pub open spec fn imagor_model(
    s: Seq<char>,
    image: Option<Seq<char>>,
    meta: bool,
    trim: Option<TrimRead>,
    crop: Option<CropRead>,
    fit: Option<Fit>,
    dims: Option<DimsRead>,
    h_align: Option<HAlign>,
    v_align: Option<VAlign>,
    smart: bool,
    filters: Seq<Filter<Seq<char>>>,
) -> ParamsModel {
    ParamsModel {
        params: false,
        path: Some(s),
        image: image,
        unsafe_: false,
        hash: None,
        meta: meta,
        trim: match trim {
            Some(t) => t.0,
            None => false,
        },
        trim_by: match trim {
            Some(t) => match t.1 {
                Some(b) => b,
                None => TrimBy::TopLeft,
            },
            None => TrimBy::TopLeft,
        },
        trim_tolerance: match trim {
            Some(t) => some_f32(t.2),
            None => None,
        },
        crop_left: match crop {
            Some(c) => Some(F32 { text: c.0 }),
            None => None,
        },
        crop_top: match crop {
            Some(c) => Some(F32 { text: c.1 }),
            None => None,
        },
        crop_right: match crop {
            Some(c) => Some(F32 { text: c.2 }),
            None => None,
        },
        crop_bottom: match crop {
            Some(c) => Some(F32 { text: c.3 }),
            None => None,
        },
        fit: fit,
        width: match dims {
            Some(d) => d.0,
            None => None,
        },
        height: match dims {
            Some(d) => d.1,
            None => None,
        },
        padding_left: None,
        padding_top: None,
        padding_right: None,
        padding_bottom: None,
        h_flip: match dims {
            Some(d) => d.2,
            None => false,
        },
        v_flip: match dims {
            Some(d) => d.3,
            None => false,
        },
        h_align: h_align,
        v_align: v_align,
        smart: smart,
        filters: filters,
    }
}

/// What the imagor grammar reads from a path: every part optional and in a
/// fixed order; `unsafe/` is read and dropped. The result ends where the image
/// ends. A size that does not fit 32 bits, or is exactly `i32::MIN`, is a crash.
pub open spec fn imagor_parse(s: Seq<char>) -> Lexed<ParamsModel> {
    let (p5, meta, trim, crop, fit) = imagor_head(s);
    match spec_dims_at(s, p5) {
        Lexed::Crash => Lexed::Crash,
        d => {
            let p6 = match d {
                Lexed::Yes(e, _) => e,
                _ => p5,
            };
            let dims = match d {
                Lexed::Yes(_, dd) => Some(
                    (opt_abs(dd.0), opt_abs(dd.1), is_negative(dd.0), is_negative(dd.1)),
                ),
                _ => None,
            };
            let ha = spec_halign_at(s, p6);
            let p7 = match ha {
                Some((e, _)) => e,
                None => p6,
            };
            let va = spec_valign_at(s, p7);
            let p8 = match va {
                Some((e, _)) => e,
                None => p7,
            };
            let smart = has_at(s, p8, "smart/"@);
            let p9 = if smart {
                p8 + "smart/"@.len()
            } else {
                p8
            };
            let fs = filters_at(s, p9);
            let p10 = match fs {
                Some((e, _)) => e,
                None => p9,
            };
            let ie = image_end(s, p10);
            Lexed::Yes(
                ie,
                imagor_model(
                    s,
                    if ie > p10 {
                        Some(s.subrange(p10, ie))
                    } else {
                        None
                    },
                    meta,
                    trim,
                    crop,
                    fit,
                    dims,
                    match ha {
                        Some((_, h)) => Some(h),
                        None => None,
                    },
                    match va {
                        Some((_, v)) => Some(v),
                        None => None,
                    },
                    smart,
                    match fs {
                        Some((_, f)) => f,
                        None => seq![],
                    },
                ),
            )
        },
    }
}

fn text_is(a: &[char], lit: &str) -> (r: bool)
    ensures
        r == (a@ == lit@),
{
    let l = str_chars(lit);
    if a.len() != l.len() {
        return false;
    }
    let r = crate::text::starts_at(a, 0, &l);
    proof {
        assert(a@.subrange(0, l@.len() as int) =~= a@);
    }
    r
}

fn format_from(up: &[char]) -> (r: Option<ImageType>)
    ensures
        r == format_of_text(up@),
{
    if text_is(up, "GIF") {
        Some(ImageType::GIF)
    } else if text_is(up, "JPEG") {
        Some(ImageType::JPEG)
    } else if text_is(up, "PNG") {
        Some(ImageType::PNG)
    } else if text_is(up, "MAGICK") {
        Some(ImageType::MAGICK)
    } else if text_is(up, "PDF") {
        Some(ImageType::PDF)
    } else if text_is(up, "SVG") {
        Some(ImageType::SVG)
    } else if text_is(up, "TIFF") {
        Some(ImageType::TIFF)
    } else if text_is(up, "WEBP") {
        Some(ImageType::WEBP)
    } else if text_is(up, "HEIF") {
        Some(ImageType::HEIF)
    } else if text_is(up, "BMP") {
        Some(ImageType::BMP)
    } else if text_is(up, "AVIF") {
        Some(ImageType::AVIF)
    } else if text_is(up, "JP2K") {
        Some(ImageType::JP2K)
    } else {
        None
    }
}

fn int_to_f32(v: i64) -> (r: F32)
    ensures
        r@ == int_f32(v as int),
{
    F32::from_int(v)
}

fn uint_to_f32(v: u64) -> (r: F32)
    ensures
        r@ == int_f32(v as int),
{
    let mut out: Vec<char> = Vec::new();
    crate::text::push_nat(&mut out, v);
    proof {
        assert(out@ =~= int_text(v as int));
    }
    F32 { text: string_of(&out) }
}

fn decimal_arg(a: &[char]) -> (r: Option<F32>)
    ensures
        match decimal_at(a@, 0) {
            Some((_, t)) => r matches Some(f) && f@.text == t,
            None => r is None,
        },
{
    match parse_decimal(a, 0) {
        Some((_, t)) => Some(F32 { text: string_of(&t) }),
        None => None,
    }
}

/// The filter that a lower-cased name and its argument text make.
pub fn filter_from(kind: &[char], a: &[char]) -> (r: Option<Filter>)
    ensures
        match filter_value(kind@, a@) {
            Some(f) => r matches Some(g) && g@ == f,
            None => r is None,
        },
{
    if text_is(kind, "backgroundcolor") {
        match parse_color(a, 0) {
            Some((_, c)) => Some(Filter::BackgroundColor(c)),
            None => None,
        }
    } else if text_is(kind, "blur") {
        match decimal_arg(a) {
            Some(f) => Some(Filter::Blur(f)),
            None => None,
        }
    } else if text_is(kind, "brightness") {
        match parse_i32(a, 0) {
            Some((_, v)) => Some(Filter::Brightness(v)),
            None => None,
        }
    } else if text_is(kind, "contrast") {
        match parse_i32(a, 0) {
            Some((_, v)) => Some(Filter::Contrast(v)),
            None => None,
        }
    } else if text_is(kind, "fill") {
        match parse_color(a, 0) {
            Some((_, c)) => Some(Filter::Fill(c)),
            None => None,
        }
    } else if text_is(kind, "focal") {
        match parse_focal_point(a, 0) {
            Some((_, f)) => Some(Filter::Focal(f)),
            None => None,
        }
    } else if text_is(kind, "format") {
        let text = string_of(a);
        let up = str_to_uppercase(text.as_str());
        let upc = str_chars(up.as_str());
        match format_from(&upc) {
            Some(t) => Some(Filter::Format(t)),
            None => None,
        }
    } else if text_is(kind, "grayscale") {
        Some(Filter::Grayscale)
    } else if text_is(kind, "hue") {
        match parse_i32(a, 0) {
            Some((_, v)) => Some(Filter::Hue(int_to_f32(v as i64))),
            None => None,
        }
    } else if text_is(kind, "label") {
        match parse_label_params(a, 0) {
            Some((_, l)) => Some(Filter::Label(l)),
            None => None,
        }
    } else if text_is(kind, "maxbytes") {
        match parse_uint(a, 0, u64::MAX) {
            Some((_, v)) => Some(Filter::MaxBytes(v as usize)),
            None => None,
        }
    } else if text_is(kind, "maxframes") {
        match parse_uint(a, 0, u64::MAX) {
            Some((_, v)) => Some(Filter::MaxFrames(v as usize)),
            None => None,
        }
    } else if text_is(kind, "modulate") {
        match parse_uint_list(a, 0, 4294967295) {
            Some((_, vs)) => {
                if vs.len() == 3 {
                    proof {
                        assert(vs@.map_values(|v: u64| v as nat)[0] == vs@[0] as nat);
                        assert(vs@.map_values(|v: u64| v as nat)[1] == vs@[1] as nat);
                        assert(vs@.map_values(|v: u64| v as nat)[2] == vs@[2] as nat);
                    }
                    Some(
                        Filter::Modulate(
                            uint_to_f32(vs[0]),
                            uint_to_f32(vs[1]),
                            uint_to_f32(vs[2]),
                        ),
                    )
                } else {
                    None
                }
            },
            None => None,
        }
    } else if text_is(kind, "orient") {
        match parse_i32(a, 0) {
            Some((_, v)) => Some(Filter::Orient(v)),
            None => None,
        }
    } else if text_is(kind, "page") {
        match parse_uint(a, 0, u64::MAX) {
            Some((_, v)) => Some(Filter::Page(v as usize)),
            None => None,
        }
    } else if text_is(kind, "dpi") {
        match parse_uint(a, 0, 4294967295) {
            Some((_, v)) => Some(Filter::Dpi(v as u32)),
            None => None,
        }
    } else if text_is(kind, "proportion") {
        match decimal_arg(a) {
            Some(f) => Some(Filter::Proportion(f)),
            None => None,
        }
    } else if text_is(kind, "quality") {
        match parse_uint(a, 0, 255) {
            Some((_, v)) => Some(Filter::Quality(v as u8)),
            None => None,
        }
    } else if text_is(kind, "rgb") {
        match parse_int_list(a, 0) {
            Some((_, vs)) => {
                if vs.len() == 3 {
                    proof {
                        assert(vs@.map_values(|v: i32| v as int)[0] == vs@[0] as int);
                        assert(vs@.map_values(|v: i32| v as int)[1] == vs@[1] as int);
                        assert(vs@.map_values(|v: i32| v as int)[2] == vs@[2] as int);
                    }
                    Some(
                        Filter::Rgb(
                            int_to_f32(vs[0] as i64),
                            int_to_f32(vs[1] as i64),
                            int_to_f32(vs[2] as i64),
                        ),
                    )
                } else {
                    None
                }
            },
            None => None,
        }
    } else if text_is(kind, "rotate") {
        match parse_i32(a, 0) {
            Some((_, v)) => Some(Filter::Rotate(v)),
            None => None,
        }
    } else if text_is(kind, "roundcorner") {
        match parse_rounded_corner_params(a, 0) {
            Some((_, r)) => Some(Filter::RoundCorner(r)),
            None => None,
        }
    } else if text_is(kind, "saturation") {
        match parse_i32(a, 0) {
            Some((_, v)) => Some(Filter::Saturation(int_to_f32(v as i64))),
            None => None,
        }
    } else if text_is(kind, "sharpen") {
        match decimal_arg(a) {
            Some(f) => Some(Filter::Sharpen(f)),
            None => None,
        }
    } else if text_is(kind, "stripexif") {
        Some(Filter::StripExif)
    } else if text_is(kind, "stripicc") {
        Some(Filter::StripIcc)
    } else if text_is(kind, "stripmetadata") {
        Some(Filter::StripMetadata)
    } else if text_is(kind, "upscale") {
        Some(Filter::Upscale)
    } else if text_is(kind, "watermark") {
        match parse_watermark_params(a, 0) {
            Some((_, w)) => Some(Filter::Watermark(w)),
            None => None,
        }
    } else {
        None
    }
}

fn sub_chars(s: &[char], lo: usize, hi: usize) -> (r: Vec<char>)
    requires
        lo <= hi <= s@.len(),
    ensures
        r@ == s@.subrange(lo as int, hi as int),
{
    let mut out: Vec<char> = Vec::new();
    crate::grammar::push_range(&mut out, s, lo, hi);
    out
}

/// Reads one filter at `pos`.
pub fn parse_filter(s: &[char], pos: usize) -> (r: Option<(usize, Filter)>)
    requires
        pos <= s@.len(),
    ensures
        match filter_at(s@, pos as int) {
            None => r is None,
            Some((e, f)) => r matches Some((e2, f2)) && e2 as int == e && f2@ == f,
        },
        r matches Some((e, _)) ==> pos < e <= s@.len(),
{
    let n = s.len();
    let ne = scan_name(s, pos);
    if ne == pos || !char_at_is(s, ne, '(') {
        return None;
    }
    proof {
        lemma_filter_progress(s@, pos as int);
    }
    let c = match find_close(s, ne + 1) {
        Some(c) => c,
        None => return None,
    };
    proof {
        lemma_close_from(s@, ne + 1, 0);
    }
    let name = string_of(&sub_chars(s, pos, ne));
    let lower = str_to_lowercase(name.as_str());
    let kind = str_chars(lower.as_str());
    let args = sub_chars(s, ne + 1, c);
    match filter_from(&kind, &args) {
        Some(f) => Some((c + 1, f)),
        None => None,
    }
}

/// Reads `filters:` and its list at `pos`, with the optional closing `/`.
pub fn parse_filters_at(s: &[char], pos: usize) -> (r: Option<(usize, Vec<Filter>)>)
    requires
        pos <= s@.len(),
    ensures
        match filters_at(s@, pos as int) {
            None => r is None,
            Some((e, fs)) => r matches Some((e2, fs2)) && e2 as int == e && filter_views(fs2@)
                == fs,
        },
        r matches Some((e, _)) ==> e <= s@.len(),
{
    let n = s.len();
    let q = match tag(s, pos, "filters:") {
        Some(q) => q,
        None => return None,
    };
    let mut out: Vec<Filter> = Vec::new();
    let (mut cur, first) = match parse_filter(s, q) {
        Some((e, f)) => (e, f),
        None => {
            proof {
                assert(filter_views(out@) =~= Seq::<Filter<Seq<char>>>::empty());
            }
            if char_at_is(s, q, '/') {
                return Some((q + 1, out));
            } else {
                return Some((q, out));
            }
        },
    };
    out.push(first);
    proof {
        assert(filter_views(out@) =~= seq![first@]);
    }
    loop
        invariant
            n == s@.len(),
            cur <= n,
            pos <= q <= n,
            has_at(s@, pos as int, "filters:"@),
            q == pos + "filters:"@.len(),
            filter_at(s@, q as int) matches Some((e0, f0)) && more_filters(s@, e0).0 == more_filters(
                s@,
                cur as int,
            ).0 && seq![f0] + more_filters(s@, e0).1 == filter_views(out@) + more_filters(
                s@,
                cur as int,
            ).1,
        decreases n - cur,
    {
        if !char_at_is(s, cur, ':') {
            proof {
                assert(filter_views(out@) + Seq::<Filter<Seq<char>>>::empty() =~= filter_views(
                    out@,
                ));
            }
            if char_at_is(s, cur, '/') {
                return Some((cur + 1, out));
            } else {
                return Some((cur, out));
            }
        }
        match parse_filter(s, cur + 1) {
            Some((e, f)) => {
                let ghost before = filter_views(out@);
                out.push(f);
                proof {
                    assert(filter_views(out@) =~= before.push(f@));
                    assert(more_filters(s@, cur as int).1 =~= seq![f@] + more_filters(
                        s@,
                        e as int,
                    ).1);
                    assert(before + more_filters(s@, cur as int).1 =~= filter_views(out@)
                        + more_filters(s@, e as int).1);
                }
                cur = e;
            },
            None => {
                proof {
                    assert(filter_views(out@) + Seq::<Filter<Seq<char>>>::empty() =~= filter_views(
                        out@,
                    ));
                }
                if char_at_is(s, cur, '/') {
                    return Some((cur + 1, out));
                } else {
                    return Some((cur, out));
                }
            },
        }
    }
}

/// Reads `filters:` and its list from the start of `input`, and what follows.
pub fn parse_filters(input: &str) -> (r: Result<(&str, Vec<Filter>), ParseError>)
    ensures
        match filters_at(input@, 0) {
            None => r is Err,
            Some((e, fs)) => r matches Ok((rest, fs2)) && rest@ == input@.subrange(
                e,
                input@.len() as int,
            ) && filter_views(fs2@) == fs,
        },
{
    let s = str_chars(input);
    match parse_filters_at(&s, 0) {
        Some((e, fs)) => Ok((input.substring_char(e, s.len()), fs)),
        None => Err(ParseError),
    }
}

fn parse_fit(s: &[char], pos: usize) -> (r: (usize, Option<Fit>))
    requires
        pos <= s@.len(),
    ensures
        r.0 as int == fit_at(s@, pos as int).0,
        r.1 == fit_at(s@, pos as int).1,
        r.0 <= s@.len(),
{
    let n = s.len();
    match tag(s, pos, "fit-in/") {
        Some(q) => match tag(s, q, "stretch/") {
            Some(e) => (e, Some(Fit::FitIn)),
            None => (q, Some(Fit::FitIn)),
        },
        None => match tag(s, pos, "stretch/") {
            Some(e) => (e, Some(Fit::Stretch)),
            None => (pos, None),
        },
    }
}

fn skip_tag(s: &[char], pos: usize, lit: &str) -> (r: (usize, bool))
    requires
        pos <= s@.len(),
    ensures
        r.1 == has_at(s@, pos as int, lit@),
        r.0 as int == if r.1 {
            pos + lit@.len()
        } else {
            pos as int
        },
        r.0 <= s@.len(),
{
    let n = s.len();
    match tag(s, pos, lit) {
        Some(e) => (e, true),
        None => (pos, false),
    }
}

fn read_head(s: &[char]) -> (r: (
    usize,
    bool,
    Option<(bool, Option<TrimBy>, Option<F32>)>,
    Option<(F32, F32, F32, F32)>,
    Option<Fit>,
))
    ensures
        ({
            let h = imagor_head(s@);
            &&& r.0 as int == h.0
            &&& r.0 <= s@.len()
            &&& r.1 == h.1
            &&& match h.2 {
                Some(t) => r.2 matches Some(t2) && t2.0 == t.0 && t2.1 == t.1 && opt_f32_view(t2.2)
                    == t.2,
                None => r.2 is None,
            }
            &&& match h.3 {
                Some(c) => r.3 matches Some(c2) && c2.0@.text == c.0 && c2.1@.text == c.1
                    && c2.2@.text == c.2 && c2.3@.text == c.3,
                None => r.3 is None,
            }
            &&& r.4 == h.4
        }),
{
    let (p0, _) = skip_tag(s, 0, "/");
    proof {
        reveal_strlit("/");
        assert("/"@ =~= seq!['/']);
    }
    let (p1, _) = skip_tag(s, p0, "unsafe/");
    let (p2, meta) = skip_tag(s, p1, "meta/");
    let (p3, trim) = match parse_trim(s, p2) {
        Some((e, t)) => (e, Some(t)),
        None => (p2, None),
    };
    proof {
        crate::grammar::lemma_decimal_at_end(s@, p3 as int);
    }
    let (p4, crop) = match parse_crop(s, p3) {
        Some((e, c)) => (e, Some(c)),
        None => (p3, None),
    };
    let (p5, fit) = parse_fit(s, p4);
    (p5, meta, trim, crop, fit)
}

fn build_params(
    s: &[char],
    image: Option<String>,
    meta: bool,
    trim: Option<(bool, Option<TrimBy>, Option<F32>)>,
    crop: Option<(F32, F32, F32, F32)>,
    fit: Option<Fit>,
    dims: Option<(Option<i32>, Option<i32>, bool, bool)>,
    h_align: Option<HAlign>,
    v_align: Option<VAlign>,
    smart: bool,
    filters: Vec<Filter>,
    Ghost(trim_read): Ghost<Option<TrimRead>>,
    Ghost(crop_read): Ghost<Option<CropRead>>,
) -> (p: Params)
    requires
        match trim_read {
            Some(t) => trim matches Some(t2) && t2.0 == t.0 && t2.1 == t.1 && opt_f32_view(t2.2)
                == t.2,
            None => trim is None,
        },
        match crop_read {
            Some(c) => crop matches Some(c2) && c2.0@.text == c.0 && c2.1@.text == c.1
                && c2.2@.text == c.2 && c2.3@.text == c.3,
            None => crop is None,
        },
    ensures
        p@ == imagor_model(
            s@,
            crate::imagorpath::filter::opt_text(image),
            meta,
            trim_read,
            crop_read,
            fit,
            dims,
            h_align,
            v_align,
            smart,
            filter_views(filters@),
        ),
{
    let (trim_flag, trim_by, trim_tolerance) = match trim {
        Some((t, b, tol)) => (
            t,
            match b {
                Some(x) => x,
                None => TrimBy::TopLeft,
            },
            tol,
        ),
        None => (false, TrimBy::TopLeft, None),
    };
    let (crop_left, crop_top, crop_right, crop_bottom) = match crop {
        Some((l, t, r, b)) => (Some(l), Some(t), Some(r), Some(b)),
        None => (None, None, None, None),
    };
    let (width, height, h_flip, v_flip) = match dims {
        Some((w, h, hf, vf)) => (w, h, hf, vf),
        None => (None, None, false, false),
    };
    let p = Params {
        params: false,
        path: Some(string_of(s)),
        image,
        unsafe_: false,
        hash: None,
        meta,
        trim: trim_flag,
        trim_by,
        trim_tolerance,
        crop_left,
        crop_top,
        crop_right,
        crop_bottom,
        fit,
        width,
        height,
        padding_left: None,
        padding_top: None,
        padding_right: None,
        padding_bottom: None,
        h_flip,
        v_flip,
        h_align,
        v_align,
        smart,
        filters,
    };
    proof {
        assert(p@.trim_tolerance == match trim_read {
            Some(t) => some_f32(t.2),
            None => None,
        });
    }
    p
}

/// Whether reading `input` as an imagor path crashes on a size it cannot hold.
pub fn path_crashes(input: &str) -> (r: bool)
    ensures
        r == imagor_parse(input@) is Crash,
{
    let s = str_chars(input);
    let (p5, _, _, _, _) = read_head(&s);
    dims_crash(&s, p5)
}

/// Reads an imagor path. Every part is optional, so reading never fails; the
/// rest of the input after the image is handed back.
pub fn parse_path(input: &str) -> (r: Result<(&str, Params), ParseError>)
    requires
        !(imagor_parse(input@) is Crash),
    ensures
        imagor_parse(input@) matches Lexed::Yes(e, m) && r matches Ok((rest, p)) && rest@
            == input@.subrange(e, input@.len() as int) && p@ == m,
{
    let s = str_chars(input);
    let n = s.len();
    let (p5, meta, trim, crop, fit) = read_head(&s);
    let (p6, dims) = match parse_dimensions(&s, p5) {
        Some((e, d)) => (e, Some(d)),
        None => (p5, None),
    };
    let (p8, h_align, v_align) = parse_alignment(&s, p6);
    let (p9, smart) = skip_tag(&s, p8, "smart/");
    let (p10, filters) = match parse_filters_at(&s, p9) {
        Some((e, fs)) => (e, fs),
        None => {
            let out: Vec<Filter> = Vec::new();
            proof {
                assert(filter_views(out@) =~= Seq::<Filter<Seq<char>>>::empty());
            }
            (p9, out)
        },
    };
    let ie = scan_image(&s, p10);
    let image = if ie > p10 {
        Some(string_of(&sub_chars(&s, p10, ie)))
    } else {
        None
    };
    let ghost h = imagor_head(s@);
    let params = build_params(
        &s,
        image,
        meta,
        trim,
        crop,
        fit,
        dims,
        h_align,
        v_align,
        smart,
        filters,
        Ghost(h.2),
        Ghost(h.3),
    );
    Ok((input.substring_char(ie, n), params))
}


/// The `format` filter reads every format back from the name it is written
/// with: the upper case of a format's name names that format, so no two
/// formats share a name.
pub proof fn law_format_names_read_back(t: ImageType)
    ensures
        format_of_text(ascii_upper(image_type_text(t))) == Some(t),
{
    reveal_strlit("gif");
    reveal_strlit("jpeg");
    reveal_strlit("png");
    reveal_strlit("magick");
    reveal_strlit("pdf");
    reveal_strlit("svg");
    reveal_strlit("tiff");
    reveal_strlit("webp");
    reveal_strlit("heif");
    reveal_strlit("bmp");
    reveal_strlit("avif");
    reveal_strlit("jp2k");
    reveal_strlit("GIF");
    reveal_strlit("JPEG");
    reveal_strlit("PNG");
    reveal_strlit("MAGICK");
    reveal_strlit("PDF");
    reveal_strlit("SVG");
    reveal_strlit("TIFF");
    reveal_strlit("WEBP");
    reveal_strlit("HEIF");
    reveal_strlit("BMP");
    reveal_strlit("AVIF");
    reveal_strlit("JP2K");
    let up = ascii_upper(image_type_text(t));
    match t {
        ImageType::GIF => {
            assert(up =~= "GIF"@);
            assert(format_of_text(up) == Some(ImageType::GIF));
        },
        ImageType::JPEG => {
            assert(up =~= "JPEG"@);
            assert(format_of_text(up) == Some(ImageType::JPEG));
        },
        ImageType::PNG => {
            assert(up =~= "PNG"@);
            assert(up[0] != "GIF"@[0]);
            assert(format_of_text(up) == Some(ImageType::PNG));
        },
        ImageType::MAGICK => {
            assert(up =~= "MAGICK"@);
            assert(format_of_text(up) == Some(ImageType::MAGICK));
        },
        ImageType::PDF => {
            assert(up =~= "PDF"@);
            assert(up[0] != "GIF"@[0]);
            assert(up[1] != "PNG"@[1]);
            assert(format_of_text(up) == Some(ImageType::PDF));
        },
        ImageType::SVG => {
            assert(up =~= "SVG"@);
            assert(up[0] != "GIF"@[0]);
            assert(up[0] != "PNG"@[0]);
            assert(up[0] != "PDF"@[0]);
            assert(format_of_text(up) == Some(ImageType::SVG));
        },
        ImageType::TIFF => {
            assert(up =~= "TIFF"@);
            assert(up[0] != "JPEG"@[0]);
            assert(format_of_text(up) == Some(ImageType::TIFF));
        },
        ImageType::WEBP => {
            assert(up =~= "WEBP"@);
            assert(up[0] != "JPEG"@[0]);
            assert(up[0] != "TIFF"@[0]);
            assert(format_of_text(up) == Some(ImageType::WEBP));
        },
        ImageType::HEIF => {
            assert(up =~= "HEIF"@);
            assert(up[0] != "JPEG"@[0]);
            assert(up[0] != "TIFF"@[0]);
            assert(up[0] != "WEBP"@[0]);
            assert(format_of_text(up) == Some(ImageType::HEIF));
        },
        ImageType::BMP => {
            assert(up =~= "BMP"@);
            assert(up[0] != "GIF"@[0]);
            assert(up[0] != "PNG"@[0]);
            assert(up[0] != "PDF"@[0]);
            assert(up[0] != "SVG"@[0]);
            assert(format_of_text(up) == Some(ImageType::BMP));
        },
        ImageType::AVIF => {
            assert(up =~= "AVIF"@);
            assert(up[0] != "JPEG"@[0]);
            assert(up[0] != "TIFF"@[0]);
            assert(up[0] != "WEBP"@[0]);
            assert(up[0] != "HEIF"@[0]);
            assert(format_of_text(up) == Some(ImageType::AVIF));
        },
        ImageType::JP2K => {
            assert(up =~= "JP2K"@);
            assert(up[2] != "JPEG"@[2]);
            assert(up[0] != "TIFF"@[0]);
            assert(up[0] != "WEBP"@[0]);
            assert(up[0] != "HEIF"@[0]);
            assert(up[0] != "AVIF"@[0]);
            assert(format_of_text(up) == Some(ImageType::JP2K));
        },
    }
}

} // verus!
