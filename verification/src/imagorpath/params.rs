//! The parameters that an imagor path carries.
use vstd::prelude::*;

pub use super::color::Color;
pub use super::filter::{
    FocalParams as FocalPoint, ImageType, LabelParams, LabelPosition, RoundedCornerParams,
    WatermarkParams, WatermarkPosition,
};
pub use super::filter::Filter;
pub use super::type_utils::F32;
pub use crate::cyberpunkpath::params::{HAlign, TrimBy, VAlign};

verus! {

/// How a resize fits the box.
#[derive(Debug, Clone, Copy, PartialEq, Eq, Structural)]
pub enum Fit {
    FitIn,
    Stretch,
}

/// Everything a path asks of an image.
#[derive(Debug, Default, PartialEq, Eq, Clone)]
pub struct Params {
    pub params: bool,
    pub path: Option<String>,
    pub image: Option<String>,
    pub unsafe_: bool,
    pub hash: Option<String>,
    pub meta: bool,
    pub trim: bool,
    pub trim_by: TrimBy,
    pub trim_tolerance: Option<F32>,
    pub crop_left: Option<F32>,
    pub crop_top: Option<F32>,
    pub crop_right: Option<F32>,
    pub crop_bottom: Option<F32>,
    pub fit: Option<Fit>,
    pub width: Option<i32>,
    pub height: Option<i32>,
    pub padding_left: Option<i32>,
    pub padding_top: Option<i32>,
    pub padding_right: Option<i32>,
    pub padding_bottom: Option<i32>,
    pub h_flip: bool,
    pub v_flip: bool,
    pub h_align: Option<HAlign>,
    pub v_align: Option<VAlign>,
    pub smart: bool,
    pub filters: Vec<Filter>,
}

/// The parameters with each string as its characters.
pub struct ParamsModel {
    pub params: bool,
    pub path: Option<Seq<char>>,
    pub image: Option<Seq<char>>,
    pub unsafe_: bool,
    pub hash: Option<Seq<char>>,
    pub meta: bool,
    pub trim: bool,
    pub trim_by: TrimBy,
    pub trim_tolerance: Option<F32<Seq<char>>>,
    pub crop_left: Option<F32<Seq<char>>>,
    pub crop_top: Option<F32<Seq<char>>>,
    pub crop_right: Option<F32<Seq<char>>>,
    pub crop_bottom: Option<F32<Seq<char>>>,
    pub fit: Option<Fit>,
    pub width: Option<i32>,
    pub height: Option<i32>,
    pub padding_left: Option<i32>,
    pub padding_top: Option<i32>,
    pub padding_right: Option<i32>,
    pub padding_bottom: Option<i32>,
    pub h_flip: bool,
    pub v_flip: bool,
    pub h_align: Option<HAlign>,
    pub v_align: Option<VAlign>,
    pub smart: bool,
    pub filters: Seq<Filter<Seq<char>>>,
}

pub open spec fn filter_views(fs: Seq<Filter>) -> Seq<Filter<Seq<char>>> {
    fs.map_values(|f: Filter| f@)
}

impl View for Params {
    type V = ParamsModel;

    open spec fn view(&self) -> ParamsModel {
        ParamsModel {
            params: self.params,
            path: super::filter::opt_text(self.path),
            image: super::filter::opt_text(self.image),
            unsafe_: self.unsafe_,
            hash: super::filter::opt_text(self.hash),
            meta: self.meta,
            trim: self.trim,
            trim_by: self.trim_by,
            trim_tolerance: super::filter::opt_f32(self.trim_tolerance),
            crop_left: super::filter::opt_f32(self.crop_left),
            crop_top: super::filter::opt_f32(self.crop_top),
            crop_right: super::filter::opt_f32(self.crop_right),
            crop_bottom: super::filter::opt_f32(self.crop_bottom),
            fit: self.fit,
            width: self.width,
            height: self.height,
            padding_left: self.padding_left,
            padding_top: self.padding_top,
            padding_right: self.padding_right,
            padding_bottom: self.padding_bottom,
            h_flip: self.h_flip,
            v_flip: self.v_flip,
            h_align: self.h_align,
            v_align: self.v_align,
            smart: self.smart,
            filters: filter_views(self.filters@),
        }
    }
}

/// Why a filter could not be read.
#[derive(Debug, Clone, PartialEq, Eq)]
pub enum FilterParseError {
    UnknownFilter(String),
    InvalidArgument(String),
    MissingArgument,
    ParseError(String),
}

#[derive(Debug, Clone, Copy, PartialEq, Eq, Structural)]
pub enum ImageFormat {
    Jpeg,
    Png,
    Gif,
    WebP,
    Tiff,
    Avif,
    Jp2,
}

#[derive(Debug, Clone, Copy, PartialEq, Eq, Structural)]
pub enum Angle {
    Deg0,
    Deg90,
    Deg180,
    Deg270,
}

#[derive(Debug, Clone, Copy, PartialEq, Eq, Structural)]
pub struct RgbAdjustment {
    pub r: i8,
    pub g: i8,
    pub b: i8,
}

#[derive(Debug, Clone, PartialEq, Eq)]
pub enum UtilityFilter {
    Attachment(Option<String>),
    Expire(u64),
    Preview,
    Raw,
}

} // verus!
