use imagor_rs::imagorpath::color::Color;
use imagor_rs::imagorpath::filter::{
    Filter, ImageType, LabelParams, LabelPosition, PaddingParams, RoundedCornerParams,
};
use imagor_rs::imagorpath::params::{Fit, HAlign, Params, VAlign};
use imagor_rs::imagorpath::type_utils::F32;
use imagor_rs::processor::image::{
    corner_layout, label_layout, FillMode, FilterStep, ImageInfo, Offset, ProcessError,
    ResizePlan, TextAlign, ThumbnailSize,
};
use imagor_rs::processor::processor::{
    blob_content_type, encoded_as, encoder_for, export_format, export_next, export_start,
    inferred_format, keep_on_failure, mime_image_type, retry_quality, CropFocus, Encoder,
    ExportState, LoadPlan, Processor, ProcessorOptions,
};

fn processor() -> Processor {
    Processor::new(
        ProcessorOptions { disable_blur: false, disabled_filters: vec![], concurrency: Some(2) },
        8,
    )
}

fn info(width: i32, height: i32, page_height: i32, has_alpha: bool) -> ImageInfo {
    ImageInfo { width, height, page_height, bands: if has_alpha { 4 } else { 3 }, has_alpha }
}

#[test]
fn new_processor_settings() {
    let p = Processor::new(
        ProcessorOptions { disable_blur: true, disabled_filters: vec![Filter::Grayscale], concurrency: None },
        8,
    );
    assert_eq!(p.concurrency, 8);
    assert_eq!(p.max_width, 100000);
    assert_eq!(p.max_height, 100000);
    assert_eq!(p.disable_filters, vec![Filter::Grayscale, Filter::Blur(F32::from_int(0))]);
    let q = Processor::new(
        ProcessorOptions { disable_blur: false, disabled_filters: vec![], concurrency: None },
        1,
    );
    assert_eq!(q.concurrency, 1);
    assert!(q.disable_filters.is_empty());
    assert_eq!(processor().concurrency, 2);
}

#[test]
fn preprocess_folds_filters() {
    let p = processor();
    let params = Params {
        fit: Some(Fit::FitIn),
        filters: vec![
            Filter::Format(ImageType::PNG),
            Filter::Page(0),
            Filter::Dpi(72),
            Filter::Orient(90),
            Filter::MaxBytes(5000),
            Filter::StripExif,
        ],
        ..Default::default()
    };
    let pp = p.preprocess(true, &params);
    assert!(!pp.upscale);
    assert_eq!(pp.format, Some(ImageType::PNG));
    assert_eq!(pp.max_n, 1);
    assert_eq!(pp.page, 1);
    assert_eq!(pp.dpi, 72);
    assert_eq!(pp.orient, 90);
    assert_eq!(pp.max_bytes, 5000);
    assert!(pp.thumbnail_not_supported);
    assert!(pp.strip_exif);
    assert!(!pp.strip_metadata);
}

#[test]
fn preprocess_frames_and_upscale() {
    let mut p = processor();
    p.max_animation_frames = 10;
    let params = Params {
        filters: vec![Filter::MaxFrames(4), Filter::MaxFrames(7), Filter::Upscale],
        ..Default::default()
    };
    let pp = p.preprocess(true, &params);
    assert_eq!(pp.max_n, 4);
    assert!(pp.upscale);
    let still = p.preprocess(false, &params);
    assert_eq!(still.max_n, 1);
}

#[test]
fn preprocess_skips_disabled_filters() {
    let p = Processor::new(
        ProcessorOptions {
            disable_blur: false,
            disabled_filters: vec![Filter::Orient(90), Filter::Fill(Color::Auto)],
            concurrency: None,
        },
        4,
    );
    let params = Params {
        filters: vec![Filter::Orient(90), Filter::Fill(Color::Auto), Filter::Orient(180)],
        ..Default::default()
    };
    let pp = p.preprocess(true, &params);
    assert_eq!(pp.orient, 180);
    let params = Params {
        filters: vec![Filter::Orient(90), Filter::Fill(Color::Auto)],
        ..Default::default()
    };
    let pp = p.preprocess(true, &params);
    assert_eq!(pp.orient, 0);
    assert!(!pp.thumbnail_not_supported);
}

#[test]
fn load_plan_choices() {
    let p = processor();
    let sized = |fit, w, h| Params { fit, width: w, height: h, ..Default::default() };
    let plan = |params: &Params| {
        let pp = p.preprocess(false, params);
        p.load_plan(10, params, &pp)
    };
    assert_eq!(
        plan(&sized(Some(Fit::FitIn), Some(0), Some(20))),
        Ok(LoadPlan::Thumbnail { width: 1, height: 20, size: ThumbnailSize::Down, crop: CropFocus::NoCrop })
    );
    assert_eq!(
        plan(&sized(Some(Fit::Stretch), Some(10), Some(20))),
        Ok(LoadPlan::Thumbnail { width: 10, height: 20, size: ThumbnailSize::Force, crop: CropFocus::NoCrop })
    );
    assert_eq!(
        plan(&sized(None, Some(10), None)),
        Ok(LoadPlan::Thumbnail { width: 10, height: 100000, size: ThumbnailSize::Both, crop: CropFocus::NoCrop })
    );
    assert_eq!(
        plan(&sized(None, None, Some(20))),
        Ok(LoadPlan::Thumbnail { width: 100000, height: 20, size: ThumbnailSize::Both, crop: CropFocus::NoCrop })
    );
    assert_eq!(plan(&sized(Some(Fit::FitIn), Some(10), None)), Ok(LoadPlan::Decode));
    assert_eq!(plan(&sized(None, None, None)), Ok(LoadPlan::Decode));
    let aligned = Params { width: Some(5), height: Some(6), v_align: Some(VAlign::Top), ..Default::default() };
    assert_eq!(
        plan(&aligned),
        Ok(LoadPlan::Thumbnail { width: 5, height: 6, size: ThumbnailSize::Both, crop: CropFocus::Low })
    );
    let smart = Params { smart: true, ..aligned.clone() };
    assert_eq!(
        plan(&smart),
        Ok(LoadPlan::Thumbnail { width: 5, height: 6, size: ThumbnailSize::Both, crop: CropFocus::Attention })
    );
    let both = Params { h_align: Some(HAlign::Left), ..aligned.clone() };
    assert_eq!(
        plan(&both),
        Ok(LoadPlan::Thumbnail { width: 5, height: 6, size: ThumbnailSize::Both, crop: CropFocus::NoCrop })
    );
    let centre = Params { v_align: Some(VAlign::Middle), h_align: Some(HAlign::Center), ..aligned.clone() };
    assert_eq!(
        plan(&centre),
        Ok(LoadPlan::Thumbnail { width: 5, height: 6, size: ThumbnailSize::Both, crop: CropFocus::Centre })
    );
    let trimmed = Params { trim: true, ..aligned.clone() };
    assert_eq!(plan(&trimmed), Ok(LoadPlan::Decode));
    let cropped = Params { crop_left: Some(F32::from_int(1)), ..aligned.clone() };
    assert_eq!(plan(&cropped), Ok(LoadPlan::DefaultThumbnail));
    let pp = p.preprocess(false, &aligned);
    assert_eq!(p.load_plan(0, &aligned, &pp), Err(ProcessError::ImageLoadError));
}

#[test]
fn filter_plan_caps_and_skips() {
    let mut p = Processor::new(
        ProcessorOptions { disable_blur: true, disabled_filters: vec![Filter::Grayscale], concurrency: None },
        1,
    );
    let filters = vec![
        Filter::Grayscale,
        Filter::Blur(F32::from_int(0)),
        Filter::Blur(F32::from_int(2)),
        Filter::Rotate(90),
    ];
    assert_eq!(p.filter_plan(&filters), vec![2, 3]);
    p.max_filter_ops = 3;
    assert_eq!(p.filter_plan(&filters), vec![2]);
}

#[test]
fn export_decisions() {
    assert_eq!(export_format(Some(ImageType::PNG), Some(ImageType::GIF)), ImageType::PNG);
    assert_eq!(export_format(None, Some(ImageType::GIF)), ImageType::GIF);
    assert_eq!(export_format(None, None), ImageType::JPEG);
    assert_eq!(encoder_for(ImageType::PNG, None), Encoder::Png { compression: 6, palette: false, quality: 75 });
    assert_eq!(encoder_for(ImageType::AVIF, Some(40)), Encoder::Heif { quality: 40, av1: true });
    assert_eq!(encoder_for(ImageType::HEIF, Some(40)), Encoder::Heif { quality: 40, av1: false });
    assert_eq!(encoder_for(ImageType::BMP, None), Encoder::Jpeg { quality: 75 });
    assert_eq!(encoder_for(ImageType::GIF, None), Encoder::Gif);
    assert_eq!(encoded_as(ImageType::BMP), ImageType::JPEG);
    assert_eq!(encoded_as(ImageType::WEBP), ImageType::WEBP);
}

#[test]
fn export_quality_steps() {
    assert_eq!(retry_quality(1000, None, ImageType::JPEG, 4000), Some(20));
    assert_eq!(retry_quality(1000, None, ImageType::JPEG, 3000), Some(40));
    assert_eq!(retry_quality(1000, None, ImageType::JPEG, 1500), Some(60));
    assert_eq!(retry_quality(1000, Some(60), ImageType::WEBP, 1200), Some(45));
    assert_eq!(retry_quality(1000, Some(10), ImageType::JPEG, 4000), None);
    assert_eq!(retry_quality(1000, None, ImageType::PNG, 4000), None);
    assert_eq!(retry_quality(0, None, ImageType::JPEG, 4000), None);
    assert_eq!(retry_quality(1000, None, ImageType::JPEG, 1000), None);
    let mut q = None;
    let mut steps = 0;
    while let Some(next) = retry_quality(10, q, ImageType::JPEG, 1_000_000) {
        q = Some(next);
        steps += 1;
    }
    assert_eq!(q, Some(5));
    assert_eq!(steps, 2);
}

#[test]
fn mime_types_map_to_formats() {
    assert_eq!(mime_image_type("image/png"), ImageType::PNG);
    assert_eq!(mime_image_type("image/jpg"), ImageType::JPEG);
    assert_eq!(mime_image_type("image/heic"), ImageType::HEIF);
    assert_eq!(mime_image_type("application/pdf"), ImageType::PDF);
    assert_eq!(mime_image_type("text/plain"), ImageType::JPEG);
    let png: [u8; 8] = [0x89, 0x50, 0x4E, 0x47, 0x0D, 0x0A, 0x1A, 0x0A];
    assert_eq!(inferred_format(&png), Some(ImageType::PNG));
    assert_eq!(inferred_format(b"GIF89a......"), Some(ImageType::GIF));
    assert_eq!(inferred_format(b"plain text"), None);
    assert_eq!(blob_content_type(&png), "image/png");
    assert_eq!(blob_content_type(b"plain text"), "image/jpeg");
}

#[test]
fn dimensions_follow_aspect_ratio() {
    let img = info(400, 200, 200, false);
    let p = |w, h| Params { width: w, height: h, ..Default::default() };
    assert_eq!(img.calculate_dimensions(&p(None, None), false), (400, 200));
    assert_eq!(img.calculate_dimensions(&p(None, Some(100)), false), (200, 100));
    assert_eq!(img.calculate_dimensions(&p(None, Some(300)), false), (400, 300));
    assert_eq!(img.calculate_dimensions(&p(None, Some(300)), true), (600, 300));
    assert_eq!(img.calculate_dimensions(&p(Some(100), None), false), (100, 50));
    assert_eq!(img.calculate_dimensions(&p(Some(1000), None), false), (1000, 200));
    assert_eq!(img.calculate_dimensions(&p(Some(1000), None), true), (1000, 500));
    assert_eq!(img.calculate_dimensions(&p(Some(7), Some(9)), false), (7, 9));
    assert_eq!(img.calculate_dimensions(&p(None, Some(-101)), false), (-202, -101));
    let odd = info(3, 7, 7, false);
    assert_eq!(odd.calculate_dimensions(&p(None, Some(-5)), true), (-2, -5));
    assert_eq!(odd.calculate_dimensions(&p(Some(5), None), true), (5, 11));
}

#[test]
fn resize_only_when_needed() {
    let img = info(400, 200, 200, false);
    assert_eq!(img.resize_plan(100, 100, None, true), ResizePlan::Keep);
    assert_eq!(
        img.resize_plan(100, 300, Some(Fit::FitIn), false),
        ResizePlan::Thumbnail { width: 100, height: 300, size: ThumbnailSize::Both }
    );
    assert_eq!(img.resize_plan(500, 300, Some(Fit::FitIn), false), ResizePlan::Keep);
    assert_eq!(
        img.resize_plan(500, 300, Some(Fit::Stretch), true),
        ResizePlan::Thumbnail { width: 500, height: 300, size: ThumbnailSize::Force }
    );
    assert!(info(10, 30, 10, false).is_animated());
    assert!(!info(10, 10, 10, false).is_animated());
}

fn label(x: LabelPosition, y: LabelPosition) -> LabelParams {
    LabelParams {
        text: "hi".to_string(),
        x,
        y,
        size: 21,
        color: Color::Auto,
        alpha: None,
        font: None,
    }
}

#[test]
fn label_placement() {
    let l = label_layout(300, 101, &label(LabelPosition::Center, LabelPosition::Center));
    assert_eq!(l.x, Offset::Pixels(150));
    assert_eq!(l.y, Offset::Pixels(40));
    assert_eq!(l.align, TextAlign::Centre);
    assert_eq!(l.alpha, 255);
    assert_eq!(l.font, "sans");
    let l = label_layout(300, 10, &label(LabelPosition::Pixels(-20), LabelPosition::Center));
    assert_eq!(l.x, Offset::Pixels(280));
    assert_eq!(l.y, Offset::Pixels(-5));
    assert_eq!(l.align, TextAlign::Low);
    let l = label_layout(300, 100, &label(LabelPosition::Right, LabelPosition::Pixels(-10)));
    assert_eq!(l.x, Offset::Pixels(300));
    assert_eq!(l.y, Offset::Pixels(69));
    assert_eq!(l.align, TextAlign::High);
    let l = label_layout(
        300,
        100,
        &label(LabelPosition::Percentage(F32::parse("0.5").unwrap()), LabelPosition::Bottom),
    );
    assert_eq!(l.x, Offset::Fraction(F32::parse("0.5").unwrap()));
    assert_eq!(l.y, Offset::Pixels(79));
    let l = label_layout(300, 100, &label(LabelPosition::Top, LabelPosition::Left));
    assert_eq!(l.x, Offset::Pixels(0));
    assert_eq!(l.y, Offset::Pixels(0));
}

#[test]
fn rounded_corner_layout() {
    let c = corner_layout(100, 80, &RoundedCornerParams { rx: 10, ry: None, color: None });
    assert_eq!((c.rx, c.ry, c.radius), (10, 10, 5));
    assert_eq!(c.corners, vec![(0, 0), (90, 0), (0, 70), (90, 70)]);
    let c = corner_layout(100, 80, &RoundedCornerParams { rx: 4_000_000_000, ry: Some(6), color: None });
    assert_eq!((c.rx, c.ry, c.radius), (i32::MAX, 6, i32::MAX / 2));
}

#[test]
fn padding_layout() {
    let img = info(100, 50, 50, true);
    let l = img.fill_layout(&PaddingParams::FourSides(1, 2, 3, 4), &Color::NoColor);
    assert_eq!((l.left, l.top, l.total_width, l.total_height), (4, 1, 106, 54));
    assert_eq!(l.mode, FillMode::Transparent);
    let anim = info(100, 150, 50, false);
    assert_eq!(anim.fill_layout(&PaddingParams::All(2), &Color::Blur).mode, FillMode::Solid);
    let l = img.fill_layout(&PaddingParams::All(2), &Color::Blur);
    assert_eq!(l.mode, FillMode::Blurred);
    assert_eq!((l.left, l.top, l.total_width, l.total_height), (2, 2, 104, 54));
}

#[test]
fn filter_steps() {
    let still = info(100, 50, 50, false);
    let anim = info(100, 150, 50, true);
    assert_eq!(still.filter_step(&Filter::Rotate(90)), FilterStep::Rotate(90));
    assert_eq!(still.filter_step(&Filter::Brightness(10)), FilterStep::Brightness { value: 10, bands: 3 });
    assert_eq!(anim.filter_step(&Filter::Contrast(-4)), FilterStep::Contrast { value: -4, bands: 4 });
    assert_eq!(still.filter_step(&Filter::BackgroundColor(Color::Auto)), FilterStep::Keep);
    assert_eq!(anim.filter_step(&Filter::BackgroundColor(Color::Auto)), FilterStep::Flatten);
    assert_eq!(still.filter_step(&Filter::Blur(F32::from_int(2))), FilterStep::Blur);
    assert_eq!(anim.filter_step(&Filter::Blur(F32::from_int(2))), FilterStep::Keep);
    assert_eq!(anim.filter_step(&Filter::Sharpen(F32::from_int(2))), FilterStep::Keep);
    assert_eq!(still.filter_step(&Filter::Upscale), FilterStep::Keep);
    assert_eq!(still.filter_step(&Filter::Grayscale), FilterStep::Grayscale);
    match still.filter_step(&Filter::Padding(Color::NoColor, PaddingParams::All(1))) {
        FilterStep::Pad(l) => assert_eq!((l.left, l.top, l.total_width, l.total_height), (1, 1, 102, 52)),
        other => panic!("unexpected {:?}", other),
    }
}

#[test]
fn process_error_messages() {
    assert_eq!(ProcessError::ImageLoadError.message(), "Failed to load image");
    assert_eq!(
        ProcessError::ImageProcessingError("x".to_string()).message(),
        "Image processing failed: x"
    );
}

#[test]
fn frames_and_page_stay_positive() {
    let p = processor();
    let params = Params {
        filters: vec![Filter::MaxFrames(0), Filter::Page(0), Filter::Format(ImageType::GIF)],
        ..Default::default()
    };
    let pp = p.preprocess(true, &params);
    assert_eq!(pp.max_n, 1);
    assert_eq!(pp.page, 1);
    assert_eq!(pp.format, Some(ImageType::GIF));
}

#[test]
fn retry_quality_above_a_percentage() {
    assert_eq!(retry_quality(1000, Some(200), ImageType::JPEG, 4000), Some(50));
    assert_eq!(retry_quality(1000, Some(-5), ImageType::JPEG, 4000), None);
}

#[test]
fn export_starts_with_default_quality() {
    let (s, e) = export_start(None, Some(ImageType::WEBP), 500);
    assert_eq!(s, ExportState { format: ImageType::WEBP, quality: None, max_bytes: 500 });
    assert_eq!(e, Encoder::Webp { quality: 75 });
    let (s, e) = export_start(Some(ImageType::PNG), Some(ImageType::WEBP), 0);
    assert_eq!(s.format, ImageType::PNG);
    assert_eq!(e, Encoder::Png { compression: 6, palette: false, quality: 75 });
    let (s, _) = export_start(None, None, 0);
    assert_eq!(s.format, ImageType::JPEG);
}

#[test]
fn export_shrinks_until_small_or_low_quality() {
    let (mut s, _) = export_start(None, None, 1000);
    let mut encoders = vec![];
    while let Some((next, e)) = export_next(s, 100_000) {
        assert!(encoders.len() < 10);
        encoders.push(e);
        s = next;
    }
    assert_eq!(
        encoders,
        vec![Encoder::Jpeg { quality: 20 }, Encoder::Jpeg { quality: 5 }]
    );
    assert_eq!(s.quality, Some(5));
    let (s, _) = export_start(None, None, 1000);
    assert_eq!(export_next(s, 1000), None);
    let (s, _) = export_start(Some(ImageType::PNG), None, 1000);
    assert_eq!(export_next(s, 100_000), None);
}

#[test]
fn failed_filter_keeps_image() {
    assert_eq!(keep_on_failure(1, Ok::<i32, &str>(2)), 2);
    assert_eq!(keep_on_failure(1, Err::<i32, &str>("no")), 1);
}

#[test]
fn last_still_format_gives_one_frame() {
    let mut p = processor();
    p.max_animation_frames = 10;
    let params = Params {
        filters: vec![Filter::Format(ImageType::JPEG), Filter::MaxFrames(8), Filter::Format(ImageType::GIF)],
        ..Default::default()
    };
    assert_eq!(p.preprocess(true, &params).max_n, 1);
    let params = Params {
        filters: vec![Filter::Format(ImageType::GIF), Filter::MaxFrames(8)],
        ..Default::default()
    };
    assert_eq!(p.preprocess(true, &params).max_n, 8);
    let params = Params {
        filters: vec![Filter::Format(ImageType::GIF), Filter::Format(ImageType::JPEG), Filter::MaxFrames(8)],
        ..Default::default()
    };
    assert_eq!(p.preprocess(true, &params).max_n, 1);
}
