//! The decisions of image processing: what the filters of a path ask of the
//! load, which filters run, and how the result is encoded.
use vstd::prelude::*;
use super::image::{ProcessError, ThumbnailSize};
use crate::imagorpath::color::Color;
use crate::imagorpath::filter::{animation_supported, same_filter, Filter, ImageType};
use crate::imagorpath::params::{filter_views, Fit, HAlign, Params, VAlign};
use crate::imagorpath::type_utils::F32;
use crate::text::{str_chars, string_of};

verus! {

/// A region of interest, as fractions of the image.
#[derive(Debug, Clone, PartialEq, Eq)]
pub struct FocalPoint {
    pub left: F32,
    pub top: F32,
    pub right: F32,
    pub bottom: F32,
}

/// What the filters of a path ask of loading and encoding.
#[derive(Debug, Clone, Copy, PartialEq, Eq, Structural)]
pub struct ProcessingParams {
    pub thumbnail_not_supported: bool,
    pub upscale: bool,
    pub thumbnail: bool,
    pub strip_exif: bool,
    pub strip_metadata: bool,
    pub orient: i32,
    pub format: Option<ImageType>,
    pub max_n: usize,
    pub max_bytes: usize,
    pub page: usize,
    pub dpi: u32,
}

/// How a processor is set up.
#[derive(Debug, Clone)]
pub struct ProcessorOptions {
    pub disable_blur: bool,
    pub disabled_filters: Vec<Filter>,
    pub concurrency: Option<i32>,
}

/// The settings that processing follows.
#[derive(Debug)]
pub struct Processor {
    pub disable_blur: bool,
    pub disable_filters: Vec<Filter>,
    pub max_filter_ops: usize,
    pub concurrency: i32,
    pub max_cache_files: i32,
    pub max_cache_mem: i32,
    pub max_cache_size: i32,
    pub max_width: i32,
    pub max_height: i32,
    pub max_resolution: i32,
    pub max_animation_frames: usize,
    pub strip_metadata: bool,
    pub avif_speed: i32,
}

/// The filters a processor leaves out: those configured, and a zero blur when
/// blur is disabled.
pub open spec fn disabled_of(options_filters: Seq<Filter<Seq<char>>>, disable_blur: bool) -> Seq<Filter<Seq<char>>> {
    if disable_blur {
        options_filters.push(Filter::Blur(F32 { text: "0"@ }))
    } else {
        options_filters
    }
}

/// The worker count: the one configured, else the machine's parallelism when
/// more than one, else one.
pub open spec fn concurrency_of(configured: Option<i32>, parallelism: usize) -> i32 {
    match configured {
        Some(c) => c,
        None => if parallelism > 1 {
            parallelism as i32
        } else {
            1
        },
    }
}

impl Processor {
    /// A processor with the given options; `parallelism` is what the machine
    /// offers, used when no concurrency is configured. Sizes are capped at
    /// 100000 pixels a side; the other limits are off.
    pub fn new(p_options: ProcessorOptions, parallelism: usize) -> (r: Processor)
        ensures
            r.disable_blur == p_options.disable_blur,
            filter_views(r.disable_filters@) == disabled_of(
                filter_views(p_options.disabled_filters@),
                p_options.disable_blur,
            ),
            r.concurrency == concurrency_of(p_options.concurrency, parallelism),
            r.max_width == 100000,
            r.max_height == 100000,
            r.max_filter_ops == 0,
            r.max_animation_frames == 0,
            !r.strip_metadata,
            r.max_cache_files == 0 && r.max_cache_mem == 0 && r.max_cache_size == 0,
            r.max_resolution == 0 && r.avif_speed == 0,
    {
        let mut disabled_filters = p_options.disabled_filters;
        let ghost before = filter_views(disabled_filters@);
        if p_options.disable_blur {
            let zero = F32 { text: string_of(&str_chars("0")) };
            disabled_filters.push(Filter::Blur(zero));
            proof {
                assert(filter_views(disabled_filters@) =~= before.push(
                    Filter::Blur(F32 { text: "0"@ }),
                ));
            }
        }
        let concurrency = match p_options.concurrency {
            Some(c) => c,
            None => if parallelism > 1 {
                parallelism as i32
            } else {
                1
            },
        };
        Processor {
            disable_blur: p_options.disable_blur,
            disable_filters: disabled_filters,
            max_filter_ops: 0,
            concurrency,
            max_cache_files: 0,
            max_cache_mem: 0,
            max_cache_size: 0,
            max_width: 100000,
            max_height: 100000,
            max_resolution: 0,
            max_animation_frames: 0,
            strip_metadata: false,
            avif_speed: 0,
        }
    }
}

/// Where the filters start from: trimming rules out thumbnails, fitting in
/// rules out upscaling, one frame unless the source can be animated.
pub open spec fn initial_processing(strip_metadata: bool, max_animation_frames: usize, trim: bool, fit: Option<Fit>, supports_animation: bool) -> ProcessingParams {
    ProcessingParams {
        thumbnail_not_supported: trim,
        upscale: fit != Some(Fit::FitIn),
        thumbnail: false,
        strip_exif: false,
        strip_metadata: strip_metadata,
        orient: 0,
        format: None,
        max_n: if !supports_animation {
            1
        } else if max_animation_frames > 1 {
            max_animation_frames
        } else {
            1
        },
        max_bytes: 0,
        page: 1,
        dpi: 0,
    }
}

/// What one enabled filter changes.
pub open spec fn processing_step(acc: ProcessingParams, f: Filter<Seq<char>>) -> ProcessingParams {
    match f {
        Filter::Format(t) => ProcessingParams {
            format: Some(t),
            max_n: if !animation_supported(t) {
                1
            } else {
                acc.max_n
            },
            ..acc
        },
        Filter::MaxFrames(n) => ProcessingParams {
            max_n: if n > 0 && n < acc.max_n {
                n
            } else {
                acc.max_n
            },
            ..acc
        },
        Filter::Upscale => ProcessingParams { upscale: true, ..acc },
        Filter::Fill(c) => if c is Auto {
            ProcessingParams { thumbnail_not_supported: true, ..acc }
        } else {
            acc
        },
        Filter::BackgroundColor(c) => if c is Auto {
            ProcessingParams { thumbnail_not_supported: true, ..acc }
        } else {
            acc
        },
        Filter::Page(p) => ProcessingParams {
            page: if p > 1 {
                p
            } else {
                1
            },
            ..acc
        },
        Filter::Dpi(d) => ProcessingParams { dpi: d, ..acc },
        Filter::Orient(o) => if o > 0 {
            ProcessingParams { orient: o, thumbnail_not_supported: true, ..acc }
        } else {
            acc
        },
        Filter::MaxBytes(b) => ProcessingParams { max_bytes: b, thumbnail_not_supported: true, ..acc },
        Filter::Focal(_) => ProcessingParams { thumbnail_not_supported: true, ..acc },
        Filter::Rotate(_) => ProcessingParams { thumbnail_not_supported: true, ..acc },
        Filter::StripExif => ProcessingParams { strip_exif: true, ..acc },
        Filter::StripMetadata => ProcessingParams { strip_metadata: true, ..acc },
        _ => acc,
    }
}

/// The filters, in order, each skipped when disabled.
pub open spec fn processing_fold(disabled: Seq<Filter<Seq<char>>>, acc: ProcessingParams, fs: Seq<Filter<Seq<char>>>) -> ProcessingParams
    decreases fs.len(),
{
    if fs.len() == 0 {
        acc
    } else {
        let next = if disabled.contains(fs[0]) {
            acc
        } else {
            processing_step(acc, fs[0])
        };
        processing_fold(disabled, next, fs.drop_first())
    }
}

/// What a processor makes of a path's parameters for a source that can or
/// cannot be animated.
pub open spec fn preprocess_of(disabled: Seq<Filter<Seq<char>>>, strip_metadata: bool, max_animation_frames: usize, supports_animation: bool, params: crate::imagorpath::params::ParamsModel) -> ProcessingParams {
    processing_fold(
        disabled,
        initial_processing(strip_metadata, max_animation_frames, params.trim, params.fit, supports_animation),
        params.filters,
    )
}

/// Whether `f` is one of the filters.
fn filter_in(fs: &Vec<Filter>, f: &Filter) -> (r: bool)
    ensures
        r == filter_views(fs@).contains(f@),
{
    let ghost v = filter_views(fs@);
    let mut i: usize = 0;
    while i < fs.len()
        invariant
            i <= fs@.len(),
            v == filter_views(fs@),
            forall|j: int| 0 <= j < i ==> v[j] != f@,
        decreases fs@.len() - i,
    {
        if same_filter(&fs[i], f) {
            proof {
                assert(v[i as int] == f@);
            }
            return true;
        }
        i = i + 1;
    }
    false
}

fn apply_step(acc: ProcessingParams, f: &Filter) -> (r: ProcessingParams)
    ensures
        r == processing_step(acc, f@),
{
    match f {
        Filter::Format(t) => ProcessingParams {
            format: Some(*t),
            max_n: if !t.is_animation_supported() {
                1
            } else {
                acc.max_n
            },
            ..acc
        },
        Filter::MaxFrames(n) => ProcessingParams {
            max_n: if *n > 0 && *n < acc.max_n {
                *n
            } else {
                acc.max_n
            },
            ..acc
        },
        Filter::Upscale => ProcessingParams { upscale: true, ..acc },
        Filter::Fill(c) | Filter::BackgroundColor(c) => match c {
            Color::Auto => ProcessingParams { thumbnail_not_supported: true, ..acc },
            _ => acc,
        },
        Filter::Page(p) => ProcessingParams {
            page: if *p > 1 {
                *p
            } else {
                1
            },
            ..acc
        },
        Filter::Dpi(d) => ProcessingParams { dpi: *d, ..acc },
        Filter::Orient(o) => if *o > 0 {
            ProcessingParams { orient: *o, thumbnail_not_supported: true, ..acc }
        } else {
            acc
        },
        Filter::MaxBytes(b) => ProcessingParams {
            max_bytes: *b,
            thumbnail_not_supported: true,
            ..acc
        },
        Filter::Focal(_) | Filter::Rotate(_) => ProcessingParams {
            thumbnail_not_supported: true,
            ..acc
        },
        Filter::StripExif => ProcessingParams { strip_exif: true, ..acc },
        Filter::StripMetadata => ProcessingParams { strip_metadata: true, ..acc },
        _ => acc,
    }
}

impl Processor {
    /// What the filters of `params` ask of loading and encoding, for a source
    /// that can be animated or not. Disabled filters ask nothing.
    pub fn preprocess(&self, supports_animation: bool, params: &Params) -> (r: ProcessingParams)
        ensures
            r == preprocess_of(
                filter_views(self.disable_filters@),
                self.strip_metadata,
                self.max_animation_frames,
                supports_animation,
                params@,
            ),
    {
        let initial = ProcessingParams {
            thumbnail_not_supported: params.trim,
            upscale: params.fit != Some(Fit::FitIn),
            thumbnail: false,
            strip_exif: false,
            strip_metadata: self.strip_metadata,
            orient: 0,
            format: None,
            max_n: if self.max_animation_frames > 1 {
                self.max_animation_frames
            } else {
                1
            },
            max_bytes: 0,
            page: 1,
            dpi: 0,
        };
        let mut acc = if supports_animation {
            initial
        } else {
            ProcessingParams { max_n: 1, ..initial }
        };
        let ghost disabled = filter_views(self.disable_filters@);
        let ghost fs = filter_views(params.filters@);
        proof {
            assert(fs.subrange(0, fs.len() as int) =~= fs);
        }
        let mut i: usize = 0;
        while i < params.filters.len()
            invariant
                i <= params.filters@.len(),
                fs == filter_views(params.filters@),
                disabled == filter_views(self.disable_filters@),
                processing_fold(disabled, acc, fs.subrange(i as int, fs.len() as int)) == processing_fold(
                    disabled,
                    initial_processing(
                        self.strip_metadata,
                        self.max_animation_frames,
                        params.trim,
                        params.fit,
                        supports_animation,
                    ),
                    fs,
                ),
            decreases params.filters@.len() - i,
        {
            let f = &params.filters[i];
            proof {
                let rest = fs.subrange(i as int, fs.len() as int);
                assert(rest[0] == f@);
                assert(rest.drop_first() =~= fs.subrange(i + 1, fs.len() as int));
            }
            if !filter_in(&self.disable_filters, f) {
                acc = apply_step(acc, f);
            }
            i = i + 1;
        }
        proof {
            assert(fs.subrange(i as int, fs.len() as int) =~= Seq::<Filter<Seq<char>>>::empty());
        }
        acc
    }
}


/// Where a cropping thumbnail looks when it has to cut.
#[derive(Debug, Clone, Copy, PartialEq, Eq, Structural)]
pub enum CropFocus {
    /// No cropping: the thumbnail keeps the whole image.
    NoCrop,
    Centre,
    Attention,
    Low,
    High,
}

/// How the source is loaded.
#[derive(Debug, Clone, Copy, PartialEq, Eq, Structural)]
pub enum LoadPlan {
    /// Load straight into a thumbnail of the given box.
    Thumbnail { width: i32, height: i32, size: ThumbnailSize, crop: CropFocus },
    /// Decode the whole image.
    Decode,
    /// Load into a thumbnail 100 pixels wide.
    DefaultThumbnail,
}

/// Where smart or aligned cropping looks: smart looks for attention; top or
/// left alone look low, bottom or right alone look high; middle and centre, or
/// nothing, look at the centre; any other pair does not crop.
pub open spec fn crop_focus_of(smart: bool, v: Option<VAlign>, h: Option<HAlign>) -> CropFocus {
    if smart {
        CropFocus::Attention
    } else if (v == Some(VAlign::Top) && h is None) || (v is None && h == Some(HAlign::Left)) {
        CropFocus::Low
    } else if (v == Some(VAlign::Bottom) && h is None) || (v is None && h == Some(HAlign::Right)) {
        CropFocus::High
    } else if (v is None || v == Some(VAlign::Middle)) && (h is None || h == Some(HAlign::Center)) {
        CropFocus::Centre
    } else {
        CropFocus::NoCrop
    }
}

/// No crop part was given.
pub open spec fn uncropped(p: crate::imagorpath::params::ParamsModel) -> bool {
    p.crop_bottom is None && p.crop_top is None && p.crop_left is None && p.crop_right is None
}

/// How a source of `blob_len` bytes is loaded: straight into a thumbnail when
/// nothing rules it out and the path gives a box, else decoded whole when
/// something rules thumbnails out, else into a small default thumbnail.
pub open spec fn load_plan_of(max_width: i32, max_height: i32, blob_len: nat, p: crate::imagorpath::params::ParamsModel, pp: ProcessingParams) -> Result<LoadPlan, ProcessError> {
    if blob_len == 0 {
        Err(ProcessError::ImageLoadError)
    } else if !pp.thumbnail_not_supported && uncropped(p) {
        Ok(
            match (p.fit, p.width, p.height) {
                (Some(Fit::FitIn), Some(w), Some(h)) => LoadPlan::Thumbnail {
                    width: if w > 1 {
                        w
                    } else {
                        1
                    },
                    height: if h > 1 {
                        h
                    } else {
                        1
                    },
                    size: if pp.upscale {
                        ThumbnailSize::Both
                    } else {
                        ThumbnailSize::Down
                    },
                    crop: CropFocus::NoCrop,
                },
                (Some(Fit::Stretch), Some(w), Some(h)) => LoadPlan::Thumbnail {
                    width: w,
                    height: h,
                    size: ThumbnailSize::Force,
                    crop: CropFocus::NoCrop,
                },
                (None, Some(w), Some(h)) => LoadPlan::Thumbnail {
                    width: w,
                    height: h,
                    size: ThumbnailSize::Both,
                    crop: crop_focus_of(p.smart, p.v_align, p.h_align),
                },
                (None, Some(w), None) => LoadPlan::Thumbnail {
                    width: w,
                    height: max_height,
                    size: ThumbnailSize::Both,
                    crop: CropFocus::NoCrop,
                },
                (None, None, Some(h)) => LoadPlan::Thumbnail {
                    width: max_width,
                    height: h,
                    size: ThumbnailSize::Both,
                    crop: CropFocus::NoCrop,
                },
                _ => LoadPlan::Decode,
            },
        )
    } else if pp.thumbnail_not_supported {
        Ok(LoadPlan::Decode)
    } else {
        Ok(LoadPlan::DefaultThumbnail)
    }
}

fn crop_focus(smart: bool, v: Option<VAlign>, h: Option<HAlign>) -> (r: CropFocus)
    ensures
        r == crop_focus_of(smart, v, h),
{
    if smart {
        return CropFocus::Attention;
    }
    match (v, h) {
        (Some(VAlign::Top), None) | (None, Some(HAlign::Left)) => CropFocus::Low,
        (Some(VAlign::Bottom), None) | (None, Some(HAlign::Right)) => CropFocus::High,
        (None, None) | (None, Some(HAlign::Center)) | (Some(VAlign::Middle), None) | (
            Some(VAlign::Middle),
            Some(HAlign::Center),
        ) => CropFocus::Centre,
        _ => CropFocus::NoCrop,
    }
}

impl Processor {
    /// How to load a source of `blob_len` bytes for these parameters; an empty
    /// source cannot be loaded.
    pub fn load_plan(&self, blob_len: usize, params: &Params, pp: &ProcessingParams) -> (r: Result<LoadPlan, ProcessError>)
        ensures
            r == load_plan_of(self.max_width, self.max_height, blob_len as nat, params@, *pp),
    {
        if blob_len == 0 {
            return Err(ProcessError::ImageLoadError);
        }
        if !pp.thumbnail_not_supported && params.crop_bottom.is_none() && params.crop_top.is_none()
            && params.crop_left.is_none() && params.crop_right.is_none() {
            let plan = match (params.fit, params.width, params.height) {
                (Some(Fit::FitIn), Some(w), Some(h)) => LoadPlan::Thumbnail {
                    width: if w > 1 {
                        w
                    } else {
                        1
                    },
                    height: if h > 1 {
                        h
                    } else {
                        1
                    },
                    size: if pp.upscale {
                        ThumbnailSize::Both
                    } else {
                        ThumbnailSize::Down
                    },
                    crop: CropFocus::NoCrop,
                },
                (Some(Fit::Stretch), Some(w), Some(h)) => LoadPlan::Thumbnail {
                    width: w,
                    height: h,
                    size: ThumbnailSize::Force,
                    crop: CropFocus::NoCrop,
                },
                (None, Some(w), Some(h)) => LoadPlan::Thumbnail {
                    width: w,
                    height: h,
                    size: ThumbnailSize::Both,
                    crop: crop_focus(params.smart, params.v_align, params.h_align),
                },
                (None, Some(w), None) => LoadPlan::Thumbnail {
                    width: w,
                    height: self.max_height,
                    size: ThumbnailSize::Both,
                    crop: CropFocus::NoCrop,
                },
                (None, None, Some(h)) => LoadPlan::Thumbnail {
                    width: self.max_width,
                    height: h,
                    size: ThumbnailSize::Both,
                    crop: CropFocus::NoCrop,
                },
                _ => LoadPlan::Decode,
            };
            return Ok(plan);
        }
        if pp.thumbnail_not_supported {
            Ok(LoadPlan::Decode)
        } else {
            Ok(LoadPlan::DefaultThumbnail)
        }
    }
}

/// How many filters run at most: the configured cap when there is one.
pub open spec fn filter_limit(max_filter_ops: usize, n: nat) -> nat {
    if max_filter_ops > 0 && max_filter_ops < n {
        max_filter_ops as nat
    } else {
        n
    }
}

/// The positions of the filters that run, in order: those within the cap
/// that are not disabled.
pub open spec fn planned_filters(disabled: Seq<Filter<Seq<char>>>, fs: Seq<Filter<Seq<char>>>, limit: nat) -> Seq<usize>
    decreases limit,
{
    if limit == 0 || limit > fs.len() {
        seq![]
    } else {
        let before = planned_filters(disabled, fs, (limit - 1) as nat);
        if disabled.contains(fs[limit - 1]) {
            before
        } else {
            before.push((limit - 1) as usize)
        }
    }
}

/// The planned positions are increasing, within the cap, and exactly those of
/// the enabled filters within the cap.
pub proof fn law_planned_filters(disabled: Seq<Filter<Seq<char>>>, fs: Seq<Filter<Seq<char>>>, limit: nat)
    requires
        limit <= fs.len(),
        limit <= usize::MAX,
    ensures
        forall|k: int|
            0 <= k < planned_filters(disabled, fs, limit).len() ==> (#[trigger] planned_filters(
                disabled,
                fs,
                limit,
            )[k]) < limit && !disabled.contains(fs[planned_filters(disabled, fs, limit)[k] as int]),
        forall|j: int, k: int|
            0 <= j < k < planned_filters(disabled, fs, limit).len() ==> planned_filters(
                disabled,
                fs,
                limit,
            )[j] < planned_filters(disabled, fs, limit)[k],
        forall|i: int|
            0 <= i < limit && !disabled.contains(#[trigger] fs[i]) ==> planned_filters(
                disabled,
                fs,
                limit,
            ).contains(i as usize),
    decreases limit,
{
    if limit > 0 {
        let before = planned_filters(disabled, fs, (limit - 1) as nat);
        law_planned_filters(disabled, fs, (limit - 1) as nat);
        let now = planned_filters(disabled, fs, limit);
        if !disabled.contains(fs[limit - 1]) {
            assert(now == before.push((limit - 1) as usize));
            assert forall|k: int| 0 <= k < now.len() implies (#[trigger] now[k]) < limit
                && !disabled.contains(fs[now[k] as int]) by {
                if k < before.len() {
                    assert(now[k] == before[k]);
                }
            }
            assert forall|j: int, k: int| 0 <= j < k < now.len() implies now[j] < now[k] by {
                assert(now[j] == before[j]);
                if k < before.len() {
                    assert(now[k] == before[k]);
                }
            }
            assert forall|i: int|
                0 <= i < limit && !disabled.contains(#[trigger] fs[i]) implies now.contains(
                i as usize,
            ) by {
                if i < limit - 1 {
                    let k = choose|k: int| 0 <= k < before.len() && before[k] == i as usize;
                    assert(now[k] == before[k]);
                } else {
                    assert(now[before.len() as int] == (limit - 1) as usize);
                }
            }
        }
    }
}

impl Processor {
    /// The positions in `filters` of the filters that are applied, in order:
    /// at most `max_filter_ops` of the first ones when that is set, and none
    /// that is disabled.
    pub fn filter_plan(&self, filters: &Vec<Filter>) -> (r: Vec<usize>)
        ensures
            r@ == planned_filters(
                filter_views(self.disable_filters@),
                filter_views(filters@),
                filter_limit(self.max_filter_ops, filters@.len()),
            ),
    {
        let n = filters.len();
        let limit = if self.max_filter_ops > 0 && self.max_filter_ops < n {
            self.max_filter_ops
        } else {
            n
        };
        let ghost disabled = filter_views(self.disable_filters@);
        let ghost fs = filter_views(filters@);
        let mut out: Vec<usize> = Vec::new();
        let mut i: usize = 0;
        while i < limit
            invariant
                i <= limit <= n,
                n == filters@.len(),
                fs == filter_views(filters@),
                disabled == filter_views(self.disable_filters@),
                out@ == planned_filters(disabled, fs, i as nat),
            decreases limit - i,
        {
            if !filter_in(&self.disable_filters, &filters[i]) {
                out.push(i);
            }
            i = i + 1;
        }
        out
    }
}

/// How the result is encoded.
#[derive(Debug, Clone, Copy, PartialEq, Eq, Structural)]
pub enum Encoder {
    Png { compression: i32, palette: bool, quality: i32 },
    Webp { quality: i32 },
    Tiff { quality: i32 },
    Gif,
    /// HEIF container with AV1 (AVIF) or HEVC compression.
    Heif { quality: i32, av1: bool },
    Jpeg { quality: i32 },
}

/// The format of the result: the one asked for, else the source's, else JPEG.
pub open spec fn export_format_of(asked: Option<ImageType>, inferred: Option<ImageType>) -> ImageType {
    match asked {
        Some(f) => f,
        None => match inferred {
            Some(f) => f,
            None => ImageType::JPEG,
        },
    }
}

/// The encoder for a format at a quality (75 when none); formats without an
/// encoder of their own are written as JPEG.
pub open spec fn encoder_of(format: ImageType, quality: Option<i32>) -> Encoder {
    let q = match quality {
        Some(q) => q,
        None => 75,
    };
    match format {
        ImageType::PNG => Encoder::Png { compression: 6, palette: false, quality: q },
        ImageType::WEBP => Encoder::Webp { quality: q },
        ImageType::TIFF => Encoder::Tiff { quality: q },
        ImageType::GIF => Encoder::Gif,
        ImageType::AVIF => Encoder::Heif { quality: q, av1: true },
        ImageType::HEIF => Encoder::Heif { quality: q, av1: false },
        _ => Encoder::Jpeg { quality: q },
    }
}

/// The format of the result: the one asked for, else the source's, else JPEG.
pub fn export_format(asked: Option<ImageType>, inferred: Option<ImageType>) -> (r: ImageType)
    ensures
        r == export_format_of(asked, inferred),
{
    match asked {
        Some(f) => f,
        None => match inferred {
            Some(f) => f,
            None => ImageType::JPEG,
        },
    }
}

/// The encoder for a format at a quality.
pub fn encoder_for(format: ImageType, quality: Option<i32>) -> (r: Encoder)
    ensures
        r == encoder_of(format, quality),
{
    let q = match quality {
        Some(q) => q,
        None => 75,
    };
    match format {
        ImageType::PNG => Encoder::Png { compression: 6, palette: false, quality: q },
        ImageType::WEBP => Encoder::Webp { quality: q },
        ImageType::TIFF => Encoder::Tiff { quality: q },
        ImageType::GIF => Encoder::Gif,
        ImageType::AVIF => Encoder::Heif { quality: q, av1: true },
        ImageType::HEIF => Encoder::Heif { quality: q, av1: false },
        _ => Encoder::Jpeg { quality: q },
    }
}

/// The content type of an encoded result: JPEG for formats written as JPEG.
pub open spec fn encoded_content_type(format: ImageType) -> ImageType {
    match format {
        ImageType::PNG | ImageType::WEBP | ImageType::TIFF | ImageType::GIF | ImageType::AVIF
        | ImageType::HEIF => format,
        _ => ImageType::JPEG,
    }
}

/// The format whose content type an encoded result carries.
pub fn encoded_as(format: ImageType) -> (r: ImageType)
    ensures
        r == encoded_content_type(format),
{
    match format {
        ImageType::PNG | ImageType::WEBP | ImageType::TIFF | ImageType::GIF | ImageType::AVIF
        | ImageType::HEIF => format,
        _ => ImageType::JPEG,
    }
}

/// After an encode of `len` bytes: the quality to encode again with, when a
/// byte limit is set, the format is not PNG, quality is unset or above 10,
/// and the result is over the limit. The quality (80 when unset) drops to a
/// quarter when the result is over three times the limit, to a half when over
/// one and a half times, else to three quarters.
pub open spec fn retry_quality_of(max_bytes: usize, quality: Option<i32>, format: ImageType, len: usize) -> Option<i32> {
    let eligible = match quality {
        Some(q) => q > 10,
        None => true,
    };
    if max_bytes > 0 && eligible && format != ImageType::PNG && len > max_bytes {
        let cur = match quality {
            Some(q) => q as int,
            None => 80,
        };
        Some(
            (if len > 3 * max_bytes {
                cur * 25 / 100
            } else if 2 * len > 3 * max_bytes {
                cur * 50 / 100
            } else {
                cur * 75 / 100
            }) as i32,
        )
    } else {
        None
    }
}

/// A quality whose retry stays within 32 bits: unset, or at most a 75th of
/// `i32::MAX` (a retry multiplies it by up to 75).
pub open spec fn quality_ok(quality: Option<i32>) -> bool {
    quality matches Some(q) ==> q <= i32::MAX / 75
}

/// Whether to encode again after an encode of `len` bytes, and at which quality.
pub fn retry_quality(max_bytes: usize, quality: Option<i32>, format: ImageType, len: usize) -> (r: Option<i32>)
    requires
        quality_ok(quality),
    ensures
        r == retry_quality_of(max_bytes, quality, format, len),
        quality_ok(r),
{
    let eligible = match quality {
        Some(q) => q > 10,
        None => true,
    };
    if max_bytes > 0 && eligible && format != ImageType::PNG && len > max_bytes {
        let cur: i32 = match quality {
            Some(q) => q,
            None => 80,
        };
        let l = len as u128;
        let m = max_bytes as u128;
        let next: i32 = if l > 3 * m {
            cur * 25 / 100
        } else if 2 * l > 3 * m {
            cur * 50 / 100
        } else {
            cur * 75 / 100
        };
        Some(next)
    } else {
        None
    }
}

/// Where the encoding of a result stands: its format, the quality of the
/// encode under way (unset: the encoder's own), and the byte limit (0: none).
#[derive(Debug, Clone, Copy, PartialEq, Eq, Structural)]
pub struct ExportState {
    pub format: ImageType,
    pub quality: Option<i32>,
    pub max_bytes: usize,
}

/// The first encode of a result: the format asked for, else the source's,
/// else JPEG, with the encoder's own quality.
pub fn export_start(asked: Option<ImageType>, inferred: Option<ImageType>, max_bytes: usize) -> (r: (ExportState, Encoder))
    ensures
        r.0 == (ExportState { format: export_format_of(asked, inferred), quality: None, max_bytes }),
        r.1 == encoder_of(r.0.format, None),
{
    let format = export_format(asked, inferred);
    (ExportState { format, quality: None, max_bytes }, encoder_for(format, None))
}

/// After an encode of `len` bytes: `None` when that encode is the result,
/// else the state and encoder of the next, smaller encode.
pub open spec fn export_next_of(s: ExportState, len: usize) -> Option<(ExportState, Encoder)> {
    match retry_quality_of(s.max_bytes, s.quality, s.format, len) {
        Some(q) => Some((ExportState { quality: Some(q), ..s }, encoder_of(s.format, Some(q)))),
        None => None,
    }
}

/// What follows an encode of `len` bytes.
pub fn export_next(s: ExportState, len: usize) -> (r: Option<(ExportState, Encoder)>)
    requires
        quality_ok(s.quality),
    ensures
        r == export_next_of(s, len),
        r matches Some((s2, _)) ==> quality_ok(s2.quality),
{
    match retry_quality(s.max_bytes, s.quality, s.format, len) {
        Some(q) => Some((ExportState { quality: Some(q), ..s }, encoder_for(s.format, Some(q)))),
        None => None,
    }
}

/// How many more encodes a state can lead to at most, as a bound: the
/// quality when it can still be retried (81 when unset), else 0.
pub open spec fn export_rank(s: ExportState) -> nat {
    match s.quality {
        None => 81,
        Some(q) => if q > 10 {
            q as nat
        } else {
            0
        },
    }
}

/// Encoding a result ends, and what it ends with fits: every further encode
/// has a smaller rank, and an encode that is kept, under a byte limit and in
/// a format other than PNG, is within the limit or was made at a quality of
/// 10 or less.
pub proof fn law_export_ends_within_limit(s: ExportState, len: usize)
    requires
        quality_ok(s.quality),
    ensures
        export_next_of(s, len) matches Some((s2, _)) ==> export_rank(s2) < export_rank(s),
        export_next_of(s, len) is None && s.max_bytes > 0 && s.format != ImageType::PNG ==> (len
            <= s.max_bytes || (s.quality matches Some(q) && q <= 10)),
{
    law_retry_lowers_quality(s.max_bytes, s.quality, s.format, len);
}

/// The image after one filter: the filtered image, or, when the filter
/// failed, the image as it was.
pub fn keep_on_failure<I, E>(current: I, outcome: Result<I, E>) -> (r: I)
    ensures
        r == match outcome {
            Ok(next) => next,
            Err(_) => current,
        },
{
    match outcome {
        Ok(next) => next,
        Err(_) => current,
    }
}

/// The image after the filters whose outcomes are given, in order: each
/// success replaces it, each failure leaves it.
pub open spec fn filters_outcome<I>(start: I, outcomes: Seq<Option<I>>) -> I
    decreases outcomes.len(),
{
    if outcomes.len() == 0 {
        start
    } else {
        let before = filters_outcome(start, outcomes.drop_last());
        match outcomes.last() {
            Some(next) => next,
            None => before,
        }
    }
}

/// Failed filters change nothing: when every filter fails the image is the
/// one they started from, and otherwise it is the last successful filter's.
pub proof fn law_failed_filters_keep_image<I>(start: I, outcomes: Seq<Option<I>>)
    ensures
        (forall|i: int| 0 <= i < outcomes.len() ==> #[trigger] outcomes[i] is None) ==> filters_outcome(
            start,
            outcomes,
        ) == start,
        forall|i: int|
            0 <= i < outcomes.len() && (#[trigger] outcomes[i] matches Some(x)) && (forall|j: int|
                i < j < outcomes.len() ==> outcomes[j] is None) ==> filters_outcome(start, outcomes)
                == outcomes[i]->0,
    decreases outcomes.len(),
{
    if outcomes.len() > 0 {
        law_failed_filters_keep_image(start, outcomes.drop_last());
        assert forall|i: int|
            0 <= i < outcomes.len() && (#[trigger] outcomes[i] matches Some(x)) && (forall|j: int|
                i < j < outcomes.len() ==> outcomes[j] is None) implies filters_outcome(start, outcomes)
            == outcomes[i]->0 by {
            if i < outcomes.len() - 1 {
                assert(outcomes[outcomes.len() - 1] is None);
                assert(outcomes.drop_last()[i] == outcomes[i]);
                assert forall|j: int| i < j < outcomes.drop_last().len() implies outcomes.drop_last()[j] is None by {
                    assert(outcomes.drop_last()[j] == outcomes[j]);
                }
            }
        }
        if forall|i: int| 0 <= i < outcomes.len() ==> #[trigger] outcomes[i] is None {
            assert forall|i: int| 0 <= i < outcomes.drop_last().len() implies #[trigger] outcomes.drop_last()[i] is None by {
                assert(outcomes.drop_last()[i] == outcomes[i]);
            }
            assert(outcomes[outcomes.len() - 1] is None);
        }
    }
}

/// The output format a detected MIME type stands for; anything unknown is JPEG.
pub open spec fn image_type_of_mime(m: Seq<char>) -> ImageType {
    if m == "image/png"@ {
        ImageType::PNG
    } else if m == "image/jpeg"@ || m == "image/jpg"@ {
        ImageType::JPEG
    } else if m == "image/webp"@ {
        ImageType::WEBP
    } else if m == "image/gif"@ {
        ImageType::GIF
    } else if m == "image/tiff"@ {
        ImageType::TIFF
    } else if m == "image/heic"@ {
        ImageType::HEIF
    } else if m == "image/avif"@ {
        ImageType::AVIF
    } else if m == "image/bmp"@ {
        ImageType::BMP
    } else if m == "image/jp2"@ {
        ImageType::JP2K
    } else if m == "image/svg+xml"@ {
        ImageType::SVG
    } else if m == "image/magick"@ {
        ImageType::MAGICK
    } else if m == "application/pdf"@ {
        ImageType::PDF
    } else {
        ImageType::JPEG
    }
}

fn is_text(a: &Vec<char>, lit: &str) -> (r: bool)
    ensures
        r == (a@ == lit@),
{
    let l = str_chars(lit);
    if a.len() != l.len() {
        return false;
    }
    let r = crate::text::starts_at(a.as_slice(), 0, &l);
    proof {
        assert(a@.subrange(0, l@.len() as int) =~= a@);
    }
    r
}

/// The output format a MIME type stands for.
pub fn mime_image_type(mime: &str) -> (r: ImageType)
    ensures
        r == image_type_of_mime(mime@),
{
    let m = str_chars(mime);
    if is_text(&m, "image/png") {
        ImageType::PNG
    } else if is_text(&m, "image/jpeg") || is_text(&m, "image/jpg") {
        ImageType::JPEG
    } else if is_text(&m, "image/webp") {
        ImageType::WEBP
    } else if is_text(&m, "image/gif") {
        ImageType::GIF
    } else if is_text(&m, "image/tiff") {
        ImageType::TIFF
    } else if is_text(&m, "image/heic") {
        ImageType::HEIF
    } else if is_text(&m, "image/avif") {
        ImageType::AVIF
    } else if is_text(&m, "image/bmp") {
        ImageType::BMP
    } else if is_text(&m, "image/jp2") {
        ImageType::JP2K
    } else if is_text(&m, "image/svg+xml") {
        ImageType::SVG
    } else if is_text(&m, "image/magick") {
        ImageType::MAGICK
    } else if is_text(&m, "application/pdf") {
        ImageType::PDF
    } else {
        ImageType::JPEG
    }
}

/// The MIME type that `infer` detects from the leading bytes of a buffer.
pub uninterp spec fn inferred_mime(data: Seq<u8>) -> Option<Seq<char>>;

/// `infer::get` on the buffer, then `mime_type` of the kind found. The
/// matchers are fixed, so the outcome is a function of the bytes, named
/// `inferred_mime`.
#[verifier::external_body]
fn infer_mime(data: &[u8]) -> (r: Option<String>)
    ensures
        match inferred_mime(data@) {
            Some(m) => r matches Some(s) && s@ == m,
            None => r is None,
        },
{
    match infer::get(data) {
        Some(kind) => Some(kind.mime_type().to_string()),
        None => None,
    }
}

/// The format of a source buffer, as its leading bytes show it.
pub fn inferred_format(data: &[u8]) -> (r: Option<ImageType>)
    ensures
        r == match inferred_mime(data@) {
            Some(m) => Some(image_type_of_mime(m)),
            None => None,
        },
{
    match infer_mime(data) {
        Some(m) => Some(mime_image_type(m.as_str())),
        None => None,
    }
}

/// The content type of a fetched source: the detected MIME type, else JPEG's.
pub fn blob_content_type(data: &[u8]) -> (r: String)
    ensures
        r@ == match inferred_mime(data@) {
            Some(m) => m,
            None => "image/jpeg"@,
        },
{
    match infer_mime(data) {
        Some(m) => m,
        None => string_of(&str_chars("image/jpeg")),
    }
}


/// The filters without those that are disabled, in order.
pub open spec fn without_disabled(disabled: Seq<Filter<Seq<char>>>, fs: Seq<Filter<Seq<char>>>) -> Seq<Filter<Seq<char>>>
    decreases fs.len(),
{
    if fs.len() == 0 {
        seq![]
    } else if disabled.contains(fs[0]) {
        without_disabled(disabled, fs.drop_first())
    } else {
        seq![fs[0]] + without_disabled(disabled, fs.drop_first())
    }
}

/// Disabled filters ask nothing: folding the filters gives what folding only
/// the enabled ones gives.
pub proof fn law_disabled_filters_ignored(disabled: Seq<Filter<Seq<char>>>, acc: ProcessingParams, fs: Seq<Filter<Seq<char>>>)
    ensures
        processing_fold(disabled, acc, fs) == processing_fold(disabled, acc, without_disabled(disabled, fs)),
    decreases fs.len(),
{
    if fs.len() > 0 {
        let rest = without_disabled(disabled, fs.drop_first());
        if disabled.contains(fs[0]) {
            law_disabled_filters_ignored(disabled, acc, fs.drop_first());
        } else {
            let next = processing_step(acc, fs[0]);
            law_disabled_filters_ignored(disabled, next, fs.drop_first());
            let w = seq![fs[0]] + rest;
            assert(w[0] == fs[0]);
            assert(w.drop_first() =~= rest);
        }
    }
}

/// The frame limit and the page stay at least one through any filters.
pub proof fn law_processing_bounds(disabled: Seq<Filter<Seq<char>>>, acc: ProcessingParams, fs: Seq<Filter<Seq<char>>>)
    requires
        acc.max_n >= 1,
        acc.page >= 1,
    ensures
        processing_fold(disabled, acc, fs).max_n >= 1,
        processing_fold(disabled, acc, fs).page >= 1,
    decreases fs.len(),
{
    if fs.len() > 0 {
        let next = if disabled.contains(fs[0]) {
            acc
        } else {
            processing_step(acc, fs[0])
        };
        law_processing_bounds(disabled, next, fs.drop_first());
    }
}

/// Whatever a path asks, processing reads at least one frame from at least
/// the first page.
pub proof fn law_preprocess_bounds(
    disabled: Seq<Filter<Seq<char>>>,
    strip_metadata: bool,
    max_animation_frames: usize,
    supports_animation: bool,
    params: crate::imagorpath::params::ParamsModel,
)
    ensures
        preprocess_of(disabled, strip_metadata, max_animation_frames, supports_animation, params).max_n >= 1,
        preprocess_of(disabled, strip_metadata, max_animation_frames, supports_animation, params).page >= 1,
{
    law_processing_bounds(
        disabled,
        initial_processing(strip_metadata, max_animation_frames, params.trim, params.fit, supports_animation),
        params.filters,
    );
}

/// The format of the last `format` filter that is not disabled, if any.
pub open spec fn last_kept_format(disabled: Seq<Filter<Seq<char>>>, fs: Seq<Filter<Seq<char>>>) -> Option<ImageType>
    decreases fs.len(),
{
    if fs.len() == 0 {
        None
    } else {
        match last_kept_format(disabled, fs.drop_first()) {
            Some(t) => Some(t),
            None => match fs[0] {
                Filter::Format(t) => if disabled.contains(fs[0]) {
                    None
                } else {
                    Some(t)
                },
                _ => None,
            },
        }
    }
}

proof fn lemma_one_frame_stays(disabled: Seq<Filter<Seq<char>>>, acc: ProcessingParams, fs: Seq<Filter<Seq<char>>>)
    requires
        acc.max_n == 1,
    ensures
        processing_fold(disabled, acc, fs).max_n == 1,
    decreases fs.len(),
{
    if fs.len() > 0 {
        let next = if disabled.contains(fs[0]) {
            acc
        } else {
            processing_step(acc, fs[0])
        };
        lemma_one_frame_stays(disabled, next, fs.drop_first());
    }
}

proof fn lemma_still_format_one_frame(disabled: Seq<Filter<Seq<char>>>, acc: ProcessingParams, fs: Seq<Filter<Seq<char>>>)
    requires
        last_kept_format(disabled, fs) matches Some(t) && !animation_supported(t),
    ensures
        processing_fold(disabled, acc, fs).max_n == 1,
    decreases fs.len(),
{
    let next = if disabled.contains(fs[0]) {
        acc
    } else {
        processing_step(acc, fs[0])
    };
    if last_kept_format(disabled, fs.drop_first()) is Some {
        lemma_still_format_one_frame(disabled, next, fs.drop_first());
    } else {
        lemma_one_frame_stays(disabled, next, fs.drop_first());
    }
}

/// A result has a single frame when its source cannot be animated, or when
/// the last `format` filter that is not disabled asks for a format without
/// animation.
pub proof fn law_single_frame(
    disabled: Seq<Filter<Seq<char>>>,
    strip_metadata: bool,
    max_animation_frames: usize,
    supports_animation: bool,
    params: crate::imagorpath::params::ParamsModel,
)
    requires
        !supports_animation || (last_kept_format(disabled, params.filters) matches Some(t)
            && !animation_supported(t)),
    ensures
        preprocess_of(disabled, strip_metadata, max_animation_frames, supports_animation, params).max_n == 1,
{
    let init = initial_processing(strip_metadata, max_animation_frames, params.trim, params.fit, supports_animation);
    if last_kept_format(disabled, params.filters) matches Some(t) && !animation_supported(t) {
        lemma_still_format_one_frame(disabled, init, params.filters);
    } else {
        lemma_one_frame_stays(disabled, init, params.filters);
    }
}

/// An enabled `upscale` filter among the filters.
pub open spec fn asks_upscale(disabled: Seq<Filter<Seq<char>>>, fs: Seq<Filter<Seq<char>>>) -> bool {
    exists|i: int| 0 <= i < fs.len() && #[trigger] fs[i] is Upscale && !disabled.contains(fs[i])
}

proof fn lemma_upscale_fold(disabled: Seq<Filter<Seq<char>>>, acc: ProcessingParams, fs: Seq<Filter<Seq<char>>>)
    ensures
        processing_fold(disabled, acc, fs).upscale == (acc.upscale || asks_upscale(disabled, fs)),
    decreases fs.len(),
{
    if fs.len() > 0 {
        let next = if disabled.contains(fs[0]) {
            acc
        } else {
            processing_step(acc, fs[0])
        };
        lemma_upscale_fold(disabled, next, fs.drop_first());
        let t = fs.drop_first();
        if asks_upscale(disabled, t) {
            let i = choose|i: int| 0 <= i < t.len() && #[trigger] t[i] is Upscale && !disabled.contains(t[i]);
            assert(fs[i + 1] == t[i]);
        }
        if asks_upscale(disabled, fs) {
            let i = choose|i: int| 0 <= i < fs.len() && #[trigger] fs[i] is Upscale && !disabled.contains(fs[i]);
            if i > 0 {
                assert(t[i - 1] == fs[i]);
            }
        }
    }
}

/// Processing upscales exactly when the path does not fit in, or asks for an
/// enabled `upscale` filter.
pub proof fn law_upscale(
    disabled: Seq<Filter<Seq<char>>>,
    strip_metadata: bool,
    max_animation_frames: usize,
    supports_animation: bool,
    params: crate::imagorpath::params::ParamsModel,
)
    ensures
        preprocess_of(disabled, strip_metadata, max_animation_frames, supports_animation, params).upscale
            == (params.fit != Some(Fit::FitIn) || asks_upscale(disabled, params.filters)),
{
    lemma_upscale_fold(
        disabled,
        initial_processing(strip_metadata, max_animation_frames, params.trim, params.fit, supports_animation),
        params.filters,
    );
}

/// Shrinking an oversized result ends: every retry lowers the quality (80
/// when unset) and keeps it non-negative, and a quality of 10 or less is
/// never retried.
pub proof fn law_retry_lowers_quality(max_bytes: usize, quality: Option<i32>, format: ImageType, len: usize)
    requires
        quality_ok(quality),
    ensures
        retry_quality_of(max_bytes, quality, format, len) matches Some(q2) ==> 0 <= q2 < (match quality {
            Some(q) => q as int,
            None => 80,
        }),
        quality matches Some(q) && q <= 10 ==> retry_quality_of(max_bytes, quality, format, len) is None,
{
}


proof fn lemma_strip_fold(disabled: Seq<Filter<Seq<char>>>, acc: ProcessingParams, fs: Seq<Filter<Seq<char>>>)
    ensures
        (acc.strip_metadata || exists|i: int|
            0 <= i < fs.len() && #[trigger] fs[i] is StripMetadata && !disabled.contains(fs[i]))
            ==> processing_fold(disabled, acc, fs).strip_metadata,
        (acc.strip_exif || exists|i: int|
            0 <= i < fs.len() && #[trigger] fs[i] is StripExif && !disabled.contains(fs[i]))
            ==> processing_fold(disabled, acc, fs).strip_exif,
    decreases fs.len(),
{
    if fs.len() > 0 {
        let next = if disabled.contains(fs[0]) {
            acc
        } else {
            processing_step(acc, fs[0])
        };
        lemma_strip_fold(disabled, next, fs.drop_first());
        assert forall|i: int|
            0 < i < fs.len() implies #[trigger] fs[i] == fs.drop_first()[i - 1] by {}
        if exists|i: int| 0 <= i < fs.len() && #[trigger] fs[i] is StripMetadata && !disabled.contains(fs[i]) {
            let i = choose|i: int| 0 <= i < fs.len() && #[trigger] fs[i] is StripMetadata && !disabled.contains(fs[i]);
            if i > 0 {
                assert(fs.drop_first()[i - 1] is StripMetadata);
            }
        }
        if exists|i: int| 0 <= i < fs.len() && #[trigger] fs[i] is StripExif && !disabled.contains(fs[i]) {
            let i = choose|i: int| 0 <= i < fs.len() && #[trigger] fs[i] is StripExif && !disabled.contains(fs[i]);
            if i > 0 {
                assert(fs.drop_first()[i - 1] is StripExif);
            }
        }
    }
}

/// Metadata is stripped when the processor is set to strip it or an enabled
/// `strip_metadata` filter asks for it, and EXIF data is stripped when an
/// enabled `strip_exif` filter asks for it; no later filter undoes either.
pub proof fn law_strip_filters(
    disabled: Seq<Filter<Seq<char>>>,
    strip_metadata: bool,
    max_animation_frames: usize,
    supports_animation: bool,
    params: crate::imagorpath::params::ParamsModel,
)
    ensures
        (strip_metadata || exists|i: int|
            0 <= i < params.filters.len() && #[trigger] params.filters[i] is StripMetadata
                && !disabled.contains(params.filters[i])) ==> preprocess_of(
            disabled,
            strip_metadata,
            max_animation_frames,
            supports_animation,
            params,
        ).strip_metadata,
        (exists|i: int|
            0 <= i < params.filters.len() && #[trigger] params.filters[i] is StripExif
                && !disabled.contains(params.filters[i])) ==> preprocess_of(
            disabled,
            strip_metadata,
            max_animation_frames,
            supports_animation,
            params,
        ).strip_exif,
{
    lemma_strip_fold(
        disabled,
        initial_processing(strip_metadata, max_animation_frames, params.trim, params.fit, supports_animation),
        params.filters,
    );
}

/// An aligned crop keeps the side it names: without smart cropping, a box
/// with both sides given is cut keeping the bottom for `bottom` alone or the
/// right for `right` alone (high), and the top for `top` alone or the left for
/// `left` alone (low); opposite alignments never keep the same side.
pub proof fn law_aligned_crop_keeps_named_side(
    max_width: i32,
    max_height: i32,
    blob_len: nat,
    p: crate::imagorpath::params::ParamsModel,
    pp: ProcessingParams,
)
    requires
        blob_len > 0,
        !pp.thumbnail_not_supported,
        uncropped(p),
        p.fit is None,
        p.width is Some,
        p.height is Some,
        !p.smart,
    ensures
        ((p.v_align == Some(VAlign::Bottom) && p.h_align is None) || (p.v_align is None && p.h_align
            == Some(HAlign::Right))) ==> (load_plan_of(max_width, max_height, blob_len, p, pp) matches Ok(
            LoadPlan::Thumbnail { crop, .. },
        ) && crop == CropFocus::High),
        ((p.v_align == Some(VAlign::Top) && p.h_align is None) || (p.v_align is None && p.h_align
            == Some(HAlign::Left))) ==> (load_plan_of(max_width, max_height, blob_len, p, pp) matches Ok(
            LoadPlan::Thumbnail { crop, .. },
        ) && crop == CropFocus::Low),
        crop_focus_of(false, Some(VAlign::Top), None) != crop_focus_of(false, Some(VAlign::Bottom), None),
        crop_focus_of(false, None, Some(HAlign::Left)) != crop_focus_of(false, None, Some(HAlign::Right)),
{
}

proof fn lemma_format_fold(disabled: Seq<Filter<Seq<char>>>, acc: ProcessingParams, fs: Seq<Filter<Seq<char>>>)
    ensures
        processing_fold(disabled, acc, fs).format == match last_kept_format(disabled, fs) {
            Some(t) => Some(t),
            None => acc.format,
        },
    decreases fs.len(),
{
    if fs.len() > 0 {
        let next = if disabled.contains(fs[0]) {
            acc
        } else {
            processing_step(acc, fs[0])
        };
        lemma_format_fold(disabled, next, fs.drop_first());
    }
}

/// The result's format is the one the last enabled `format` filter asks for,
/// and none when no enabled filter asks for one.
pub proof fn law_last_format_wins(
    disabled: Seq<Filter<Seq<char>>>,
    strip_metadata: bool,
    max_animation_frames: usize,
    supports_animation: bool,
    params: crate::imagorpath::params::ParamsModel,
)
    ensures
        preprocess_of(disabled, strip_metadata, max_animation_frames, supports_animation, params).format
            == last_kept_format(disabled, params.filters),
{
    lemma_format_fold(
        disabled,
        initial_processing(strip_metadata, max_animation_frames, params.trim, params.fit, supports_animation),
        params.filters,
    );
}

/// Smart cropping looks for the most interesting part, whatever the alignment.
pub proof fn law_smart_crop_looks_for_attention(v: Option<VAlign>, h: Option<HAlign>)
    ensures
        crop_focus_of(true, v, h) == CropFocus::Attention,
{
}

} // verus!
