//! The parameters that a cyberpunk path carries.
use vstd::prelude::*;
use crate::text::{str_chars, str_to_lowercase, push_str, string_of};

pub use crate::imagorpath::type_utils::F32;

verus! {

/// Horizontal alignment of a crop.
#[derive(Debug, Clone, Copy, PartialEq, Eq, Structural)]
pub enum HAlign {
    Left,
    Right,
    Center,
}

/// Vertical alignment of a crop.
#[derive(Debug, Clone, Copy, PartialEq, Eq, Structural)]
pub enum VAlign {
    Top,
    Bottom,
    Middle,
}

/// The corner whose colour a trim takes as background.
#[derive(Debug, Clone, Copy, PartialEq, Eq, Structural, Default)]
pub enum TrimBy {
    #[default]
    TopLeft,
    BottomRight,
}

pub open spec fn halign_text(h: HAlign) -> Seq<char> {
    match h {
        HAlign::Left => "left"@,
        HAlign::Right => "right"@,
        HAlign::Center => "center"@,
    }
}

pub open spec fn valign_text(v: VAlign) -> Seq<char> {
    match v {
        VAlign::Top => "top"@,
        VAlign::Bottom => "bottom"@,
        VAlign::Middle => "middle"@,
    }
}

/// What `HAlign::from_str` makes of a text: `left` or `right` in any case.
pub open spec fn halign_from_text(s: Seq<char>, lower: Seq<char>) -> Result<HAlign, Seq<char>> {
    if lower == "left"@ {
        Ok(HAlign::Left)
    } else if lower == "right"@ {
        Ok(HAlign::Right)
    } else {
        Err("Invalid HAlign value: "@ + s)
    }
}

/// What `VAlign::from_str` makes of a text: `top` or `bottom` in any case.
pub open spec fn valign_from_text(s: Seq<char>, lower: Seq<char>) -> Result<VAlign, Seq<char>> {
    if lower == "top"@ {
        Ok(VAlign::Top)
    } else if lower == "bottom"@ {
        Ok(VAlign::Bottom)
    } else {
        Err("Invalid VAlign value: "@ + s)
    }
}

fn str_is(a: &str, b: &str) -> (r: bool)
    ensures
        r == (a@ == b@),
{
    let x = str_chars(a);
    let y = str_chars(b);
    if x.len() != y.len() {
        return false;
    }
    let mut i: usize = 0;
    while i < x.len()
        invariant
            x@ == a@,
            y@ == b@,
            x@.len() == y@.len(),
            i <= x@.len(),
            forall|j: int| 0 <= j < i ==> x@[j] == y@[j],
        decreases x@.len() - i,
    {
        if x[i] != y[i] {
            return false;
        }
        i = i + 1;
    }
    proof {
        assert(x@ =~= y@);
    }
    true
}

/// Converts a result whose error is a character sequence to one whose error
/// is a string.
fn error_text(prefix: &str, s: &str) -> (r: String)
    ensures
        r@ == prefix@ + s@,
{
    let mut out: Vec<char> = Vec::new();
    push_str(&mut out, prefix);
    push_str(&mut out, s);
    string_of(&out)
}

impl HAlign {
    /// The alignment's name as `Display` writes it.
    pub fn as_str(&self) -> (r: &'static str)
        ensures
            r@ == halign_text(*self),
    {
        match self {
            HAlign::Left => "left",
            HAlign::Right => "right",
            HAlign::Center => "center",
        }
    }

    /// Parses `left` or `right`, in any case.
    pub fn parse(s: &str) -> (r: Result<HAlign, String>)
        ensures
            match halign_from_text(s@, crate::text::unicode_lowercase(s@)) {
                Ok(h) => r == Ok::<HAlign, String>(h),
                Err(e) => r matches Err(m) && m@ == e,
            },
    {
        let lower = str_to_lowercase(s);
        if str_is(lower.as_str(), "left") {
            Ok(HAlign::Left)
        } else if str_is(lower.as_str(), "right") {
            Ok(HAlign::Right)
        } else {
            Err(error_text("Invalid HAlign value: ", s))
        }
    }
}

impl VAlign {
    /// The alignment's name as `Display` writes it.
    pub fn as_str(&self) -> (r: &'static str)
        ensures
            r@ == valign_text(*self),
    {
        match self {
            VAlign::Top => "top",
            VAlign::Bottom => "bottom",
            VAlign::Middle => "middle",
        }
    }

    /// Parses `top` or `bottom`, in any case.
    pub fn parse(s: &str) -> (r: Result<VAlign, String>)
        ensures
            match valign_from_text(s@, crate::text::unicode_lowercase(s@)) {
                Ok(v) => r == Ok::<VAlign, String>(v),
                Err(e) => r matches Err(m) && m@ == e,
            },
    {
        let lower = str_to_lowercase(s);
        if str_is(lower.as_str(), "top") {
            Ok(VAlign::Top)
        } else if str_is(lower.as_str(), "bottom") {
            Ok(VAlign::Bottom)
        } else {
            Err(error_text("Invalid VAlign value: ", s))
        }
    }
}

impl std::str::FromStr for HAlign {
    type Err = String;

    /// Parses `left` or `right`, in any case, as `HAlign::parse` does.
    fn from_str(s: &str) -> (r: Result<Self, Self::Err>)
        ensures
            match halign_from_text(s@, crate::text::unicode_lowercase(s@)) {
                Ok(h) => r == Ok::<HAlign, String>(h),
                Err(e) => r matches Err(m) && m@ == e,
            },
    {
        HAlign::parse(s)
    }
}

impl std::str::FromStr for VAlign {
    type Err = String;

    /// Parses `top` or `bottom`, in any case, as `VAlign::parse` does.
    fn from_str(s: &str) -> (r: Result<Self, Self::Err>)
        ensures
            match valign_from_text(s@, crate::text::unicode_lowercase(s@)) {
                Ok(v) => r == Ok::<VAlign, String>(v),
                Err(e) => r matches Err(m) && m@ == e,
            },
    {
        VAlign::parse(s)
    }
}

/// Everything a path asks of an image.
#[derive(Debug, Default, PartialEq, Eq, Clone)]
pub struct Params {
    pub params: bool,
    pub path: Option<String>,
    pub image: Option<String>,
    pub unsafe_: bool,
    pub hash: Option<String>,
    pub meta: bool,
    pub trim: bool,
    pub trim_by: TrimBy,
    pub trim_tolerance: Option<F32>,
    pub crop_left: Option<F32>,
    pub crop_top: Option<F32>,
    pub crop_right: Option<F32>,
    pub crop_bottom: Option<F32>,
    pub fit_in: bool,
    pub stretch: bool,
    pub width: Option<i32>,
    pub height: Option<i32>,
    pub padding_left: Option<i32>,
    pub padding_top: Option<i32>,
    pub padding_right: Option<i32>,
    pub padding_bottom: Option<i32>,
    pub h_flip: bool,
    pub v_flip: bool,
    pub h_align: Option<HAlign>,
    pub v_align: Option<VAlign>,
    pub smart: bool,
    pub filters: Vec<Filter>,
}

/// A filter as the path names it: a name and the text of its arguments.
#[derive(Debug, Default, Clone, PartialEq, Eq)]
pub struct Filter<S = String> {
    pub name: Option<S>,
    pub args: Option<S>,
}

pub open spec fn opt_text(o: Option<String>) -> Option<Seq<char>> {
    match o {
        Some(s) => Some(s@),
        None => None,
    }
}

pub open spec fn opt_decimal(o: Option<F32>) -> Option<F32<Seq<char>>> {
    match o {
        Some(f) => Some(f@),
        None => None,
    }
}

impl View for Filter<String> {
    type V = Filter<Seq<char>>;

    open spec fn view(&self) -> Filter<Seq<char>> {
        Filter { name: opt_text(self.name), args: opt_text(self.args) }
    }
}

/// The parameters that the path hands over, the model of the strings being
/// their characters.
pub struct ParamsModel {
    pub params: bool,
    pub path: Option<Seq<char>>,
    pub image: Option<Seq<char>>,
    pub unsafe_: bool,
    pub hash: Option<Seq<char>>,
    pub meta: bool,
    pub trim: bool,
    pub trim_by: TrimBy,
    pub trim_tolerance: Option<F32<Seq<char>>>,
    pub crop_left: Option<F32<Seq<char>>>,
    pub crop_top: Option<F32<Seq<char>>>,
    pub crop_right: Option<F32<Seq<char>>>,
    pub crop_bottom: Option<F32<Seq<char>>>,
    pub fit_in: bool,
    pub stretch: bool,
    pub width: Option<i32>,
    pub height: Option<i32>,
    pub padding_left: Option<i32>,
    pub padding_top: Option<i32>,
    pub padding_right: Option<i32>,
    pub padding_bottom: Option<i32>,
    pub h_flip: bool,
    pub v_flip: bool,
    pub h_align: Option<HAlign>,
    pub v_align: Option<VAlign>,
    pub smart: bool,
    pub filters: Seq<Filter<Seq<char>>>,
}

impl View for Params {
    type V = ParamsModel;

    open spec fn view(&self) -> ParamsModel {
        ParamsModel {
            params: self.params,
            path: opt_text(self.path),
            image: opt_text(self.image),
            unsafe_: self.unsafe_,
            hash: opt_text(self.hash),
            meta: self.meta,
            trim: self.trim,
            trim_by: self.trim_by,
            trim_tolerance: opt_decimal(self.trim_tolerance),
            crop_left: opt_decimal(self.crop_left),
            crop_top: opt_decimal(self.crop_top),
            crop_right: opt_decimal(self.crop_right),
            crop_bottom: opt_decimal(self.crop_bottom),
            fit_in: self.fit_in,
            stretch: self.stretch,
            width: self.width,
            height: self.height,
            padding_left: self.padding_left,
            padding_top: self.padding_top,
            padding_right: self.padding_right,
            padding_bottom: self.padding_bottom,
            h_flip: self.h_flip,
            v_flip: self.v_flip,
            h_align: self.h_align,
            v_align: self.v_align,
            smart: self.smart,
            filters: self.filters@.map_values(|f: Filter| f@),
        }
    }
}

impl Filter<String> {
    /// A filter with neither a name nor arguments.
    pub fn is_empty(&self) -> (r: bool)
        ensures
            r == (self.name is None && self.args is None),
    {
        self.name.is_none() && self.args.is_none()
    }
}

} // verus!
