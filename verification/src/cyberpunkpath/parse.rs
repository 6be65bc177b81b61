//! The cyberpunk path grammar:
//! `meta/trim[:corner][:tolerance]/[crop/]fit-in/[-]W x [-]H/[halign/][valign/]smart/[filters:...[/]]image`.
use vstd::prelude::*;
use vstd::string::StrSliceExecFns;
use super::params::{Filter, HAlign, Params, ParamsModel, TrimBy, VAlign, F32};
use crate::grammar::{
    decimal_at, decimal_text, digits_end, lemma_digits_end, parse_decimal, push_range, scan_digits,
    tag, char_at_is,
};
use crate::text::{
    char_alphanumeric, digits_value, has_at, str_chars, string_of, unicode_alphanumeric,
};

verus! {

/// A path that its parser reads.
#[derive(Debug)]
pub struct CyberpunkPath {
    pub path: String,
}

/// The input does not follow the grammar.
#[derive(Debug, Clone, Copy, PartialEq, Eq, Structural)]
pub struct ParseError;

/// The outcome of reading one piece: not there, a reading the service aborts
/// on, or the end of the piece and what it says.
pub enum Lexed<T> {
    No,
    Crash,
    Yes(int, T),
}

/// `trim`, then `:top-left` or `:bottom-right`, then `:` and digits, then `/`;
/// or a lone `/`, which reads as no trim.
pub open spec fn spec_trim_at(s: Seq<char>, pos: int) -> Option<
    (int, (bool, Option<TrimBy>, Option<Seq<char>>)),
> {
    if has_at(s, pos, "trim"@) {
        let q = pos + "trim"@.len();
        let q2 = if has_at(s, q, ":top-left"@) {
            q + ":top-left"@.len()
        } else if has_at(s, q, ":bottom-right"@) {
            q + ":bottom-right"@.len()
        } else {
            q
        };
        let by = if has_at(s, q, ":top-left"@) {
            Some(TrimBy::TopLeft)
        } else if has_at(s, q, ":bottom-right"@) {
            Some(TrimBy::BottomRight)
        } else {
            None
        };
        let e = digits_end(s, q2 + 1);
        let q3 = if has_at(s, q2, seq![':']) && e > q2 + 1 {
            e
        } else {
            q2
        };
        let tol = if has_at(s, q2, seq![':']) && e > q2 + 1 {
            Some(decimal_text(false, s.subrange(q2 + 1, e), seq![]))
        } else {
            None
        };
        if has_at(s, q3, seq!['/']) {
            Some((q3 + 1, (true, by, tol)))
        } else {
            None
        }
    } else if has_at(s, pos, seq!['/']) {
        Some((pos + 1, (false, None, None)))
    } else {
        None
    }
}

/// `left x top : right x bottom /`, each a decimal.
pub open spec fn spec_crop_at(s: Seq<char>, pos: int) -> Option<
    (int, (Seq<char>, Seq<char>, Seq<char>, Seq<char>)),
> {
    match decimal_at(s, pos) {
        None => None,
        Some((e1, l)) => if !has_at(s, e1, seq!['x']) {
            None
        } else {
            match decimal_at(s, e1 + 1) {
                None => None,
                Some((e2, t)) => if !has_at(s, e2, seq![':']) {
                    None
                } else {
                    match decimal_at(s, e2 + 1) {
                        None => None,
                        Some((e3, r)) => if !has_at(s, e3, seq!['x']) {
                            None
                        } else {
                            match decimal_at(s, e3 + 1) {
                                None => None,
                                Some((e4, b)) => if has_at(s, e4, seq!['/']) {
                                    Some((e4 + 1, (l, t, r, b)))
                                } else {
                                    None
                                },
                            }
                        },
                    }
                },
            }
        },
    }
}

/// An optional size: `-` and digits, or digits. A size that does not fit a
/// 32-bit integer is a crash.
pub open spec fn dim_num(s: Seq<char>, q: int) -> Lexed<Option<int>> {
    let neg = has_at(s, q, seq!['-']);
    let p = if neg {
        q + 1
    } else {
        q
    };
    let e = digits_end(s, p);
    if e == p {
        Lexed::Yes(q, None)
    } else {
        let v = digits_value(s.subrange(p, e));
        let val = if neg {
            -v
        } else {
            v as int
        };
        if val < i32::MIN || val > i32::MAX {
            Lexed::Crash
        } else {
            Lexed::Yes(e, Some(val))
        }
    }
}

/// `[w] x [h] /`. A size of exactly `i32::MIN` has no absolute value and is a crash.
pub open spec fn spec_dims_at(s: Seq<char>, pos: int) -> Lexed<(Option<int>, Option<int>)> {
    match dim_num(s, pos) {
        Lexed::Crash => Lexed::Crash,
        Lexed::No => Lexed::No,
        Lexed::Yes(q, w) => if !has_at(s, q, seq!['x']) {
            Lexed::No
        } else {
            match dim_num(s, q + 1) {
                Lexed::Crash => Lexed::Crash,
                Lexed::No => Lexed::No,
                Lexed::Yes(q2, h) => if !has_at(s, q2, seq!['/']) {
                    Lexed::No
                } else if w == Some(i32::MIN as int) || h == Some(i32::MIN as int) {
                    Lexed::Crash
                } else {
                    Lexed::Yes(q2 + 1, (w, h))
                },
            }
        },
    }
}

pub open spec fn opt_abs(o: Option<int>) -> Option<i32> {
    match o {
        Some(v) => Some(
            (if v < 0 {
                -v
            } else {
                v
            }) as i32,
        ),
        None => None,
    }
}

pub open spec fn is_negative(o: Option<int>) -> bool {
    match o {
        Some(v) => v < 0,
        None => false,
    }
}

/// `left/`, `right/` or `center/`.
pub open spec fn spec_halign_at(s: Seq<char>, pos: int) -> Option<(int, HAlign)> {
    if has_at(s, pos, "left"@) && has_at(s, pos + "left"@.len(), seq!['/']) {
        Some((pos + "left"@.len() + 1, HAlign::Left))
    } else if has_at(s, pos, "right"@) && has_at(s, pos + "right"@.len(), seq!['/']) {
        Some((pos + "right"@.len() + 1, HAlign::Right))
    } else if has_at(s, pos, "center"@) && has_at(s, pos + "center"@.len(), seq!['/']) {
        Some((pos + "center"@.len() + 1, HAlign::Center))
    } else {
        None
    }
}

/// `top/`, `bottom/` or `middle/`.
pub open spec fn spec_valign_at(s: Seq<char>, pos: int) -> Option<(int, VAlign)> {
    if has_at(s, pos, "top"@) && has_at(s, pos + "top"@.len(), seq!['/']) {
        Some((pos + "top"@.len() + 1, VAlign::Top))
    } else if has_at(s, pos, "bottom"@) && has_at(s, pos + "bottom"@.len(), seq!['/']) {
        Some((pos + "bottom"@.len() + 1, VAlign::Bottom))
    } else if has_at(s, pos, "middle"@) && has_at(s, pos + "middle"@.len(), seq!['/']) {
        Some((pos + "middle"@.len() + 1, VAlign::Middle))
    } else {
        None
    }
}

pub open spec fn is_name_char(c: char) -> bool {
    unicode_alphanumeric(c) || c == '_'
}

/// End of the run of name characters (alphanumeric or `_`) at `pos`.
pub open spec fn name_end(s: Seq<char>, pos: int) -> int
    decreases s.len() - pos,
{
    if 0 <= pos < s.len() && is_name_char(s[pos]) {
        name_end(s, pos + 1)
    } else {
        pos
    }
}

pub proof fn lemma_name_end(s: Seq<char>, pos: int)
    requires
        0 <= pos <= s.len(),
    ensures
        pos <= name_end(s, pos) <= s.len(),
    decreases s.len() - pos,
{
    if pos < s.len() && is_name_char(s[pos]) {
        lemma_name_end(s, pos + 1);
    }
}

/// Position of the `)` that closes a parenthesis opened before `i`, with
/// `depth` parentheses opened since and not yet closed.
pub open spec fn close_from(s: Seq<char>, i: int, depth: nat) -> Option<int>
    decreases s.len() - i,
{
    if i < 0 || i >= s.len() {
        None
    } else if s[i] == '(' {
        close_from(s, i + 1, depth + 1)
    } else if s[i] == ')' {
        if depth == 0 {
            Some(i)
        } else {
            close_from(s, i + 1, (depth - 1) as nat)
        }
    } else {
        close_from(s, i + 1, depth)
    }
}

pub proof fn lemma_close_from(s: Seq<char>, i: int, depth: nat)
    ensures
        close_from(s, i, depth) matches Some(c) ==> 0 <= i <= c < s.len() && s[c] == ')',
    decreases s.len() - i,
{
    if 0 <= i < s.len() {
        if s[i] == '(' {
            lemma_close_from(s, i + 1, depth + 1);
        } else if s[i] == ')' {
            if depth > 0 {
                lemma_close_from(s, i + 1, (depth - 1) as nat);
            }
        } else {
            lemma_close_from(s, i + 1, depth);
        }
    }
}

/// A filter: a name, then arguments in balanced parentheses when they close.
pub open spec fn cyber_filter_at(s: Seq<char>, pos: int) -> Option<(int, Filter<Seq<char>>)> {
    let ne = name_end(s, pos);
    if ne == pos {
        None
    } else if has_at(s, ne, seq!['(']) && close_from(s, ne + 1, 0) is Some {
        let c = close_from(s, ne + 1, 0).unwrap();
        Some(
            (
                c + 1,
                Filter {
                    name: Some(s.subrange(pos, ne)),
                    args: if c > ne + 1 {
                        Some(s.subrange(ne + 1, c))
                    } else {
                        None
                    },
                },
            ),
        )
    } else {
        Some((ne, Filter { name: Some(s.subrange(pos, ne)), args: None }))
    }
}

pub proof fn lemma_cyber_filter_progress(s: Seq<char>, pos: int)
    requires
        0 <= pos <= s.len(),
    ensures
        cyber_filter_at(s, pos) matches Some((e, f)) ==> pos < e <= s.len(),
{
    lemma_name_end(s, pos);
    let ne = name_end(s, pos);
    lemma_close_from(s, ne + 1, 0);
}

/// Further filters, each after a `:`.
pub open spec fn more_filters(s: Seq<char>, pos: int) -> (int, Seq<Filter<Seq<char>>>)
    decreases s.len() - pos,
{
    if 0 <= pos <= s.len() && has_at(s, pos, seq![':']) {
        match cyber_filter_at(s, pos + 1) {
            None => (pos, seq![]),
            Some((e, f)) => {
                proof {
                    lemma_cyber_filter_progress(s, pos + 1);
                }
                let rest = more_filters(s, e);
                (rest.0, seq![f] + rest.1)
            },
        }
    } else {
        (pos, seq![])
    }
}

/// Filters separated by `:`, possibly none.
pub open spec fn filter_list(s: Seq<char>, pos: int) -> (int, Seq<Filter<Seq<char>>>) {
    match cyber_filter_at(s, pos) {
        None => (pos, seq![]),
        Some((e, f)) => {
            let rest = more_filters(s, e);
            (rest.0, seq![f] + rest.1)
        },
    }
}

/// `filters:` and a list of filters, with an optional closing `/`; without the
/// `filters:` prefix there are no filters and nothing is read.
pub open spec fn spec_filters_at(s: Seq<char>, pos: int) -> (int, Seq<Filter<Seq<char>>>) {
    if has_at(s, pos, "filters:"@) {
        let l = filter_list(s, pos + "filters:"@.len());
        (
            if has_at(s, l.0, seq!['/']) {
                l.0 + 1
            } else {
                l.0
            },
            l.1,
        )
    } else {
        (pos, seq![])
    }
}

pub open spec fn model_with(
    s: Seq<char>,
    trim: (bool, Option<TrimBy>, Option<Seq<char>>),
    crop: Option<(Seq<char>, Seq<char>, Seq<char>, Seq<char>)>,
    dims: (Option<int>, Option<int>),
    ha: Option<HAlign>,
    va: Option<VAlign>,
    filters: Seq<Filter<Seq<char>>>,
    image: Seq<char>,
) -> ParamsModel {
    ParamsModel {
        params: false,
        path: Some(s),
        image: Some(image),
        unsafe_: false,
        hash: None,
        meta: true,
        trim: trim.0,
        trim_by: match trim.1 {
            Some(b) => b,
            None => TrimBy::TopLeft,
        },
        trim_tolerance: match trim.2 {
            Some(t) => Some(F32 { text: t }),
            None => None,
        },
        crop_left: match crop {
            Some(c) => Some(F32 { text: c.0 }),
            None => None,
        },
        crop_top: match crop {
            Some(c) => Some(F32 { text: c.1 }),
            None => None,
        },
        crop_right: match crop {
            Some(c) => Some(F32 { text: c.2 }),
            None => None,
        },
        crop_bottom: match crop {
            Some(c) => Some(F32 { text: c.3 }),
            None => None,
        },
        fit_in: true,
        stretch: false,
        width: opt_abs(dims.0),
        height: opt_abs(dims.1),
        padding_left: None,
        padding_top: None,
        padding_right: None,
        padding_bottom: None,
        h_flip: is_negative(dims.0),
        v_flip: is_negative(dims.1),
        h_align: ha,
        v_align: va,
        smart: true,
        filters: filters,
    }
}

/// What the cyberpunk grammar reads from a whole path: `meta/`, a trim part,
/// an optional crop, `fit-in/`, the size with flips, optional alignments,
/// `smart/`, optional filters, then the rest as the image, which must not be
/// empty.
pub open spec fn cyber_parse(s: Seq<char>) -> Lexed<ParamsModel> {
    if !has_at(s, 0, "meta/"@) {
        Lexed::No
    } else {
        let p1 = "meta/"@.len() as int;
        match spec_trim_at(s, p1) {
            None => Lexed::No,
            Some((p2, trim)) => {
                let crop = spec_crop_at(s, p2);
                let p3 = match crop {
                    Some((e, _)) => e,
                    None => p2,
                };
                if !has_at(s, p3, "fit-in/"@) {
                    Lexed::No
                } else {
                    let p4 = p3 + "fit-in/"@.len();
                    match spec_dims_at(s, p4) {
                        Lexed::No => Lexed::No,
                        Lexed::Crash => Lexed::Crash,
                        Lexed::Yes(p5, dims) => {
                            let ha = spec_halign_at(s, p5);
                            let p6 = match ha {
                                Some((e, _)) => e,
                                None => p5,
                            };
                            let va = spec_valign_at(s, p6);
                            let p7 = match va {
                                Some((e, _)) => e,
                                None => p6,
                            };
                            if !has_at(s, p7, "smart/"@) {
                                Lexed::No
                            } else {
                                let p8 = p7 + "smart/"@.len();
                                let (p9, fs) = spec_filters_at(s, p8);
                                if p9 >= s.len() {
                                    Lexed::No
                                } else {
                                    Lexed::Yes(
                                        s.len() as int,
                                        model_with(
                                            s,
                                            trim,
                                            match crop {
                                                Some((_, c)) => Some(c),
                                                None => None,
                                            },
                                            dims,
                                            match ha {
                                                Some((_, h)) => Some(h),
                                                None => None,
                                            },
                                            match va {
                                                Some((_, v)) => Some(v),
                                                None => None,
                                            },
                                            fs,
                                            s.subrange(p9, s.len() as int),
                                        ),
                                    )
                                }
                            }
                        },
                    }
                }
            },
        }
    }
}

pub open spec fn opt_f32_view(o: Option<F32>) -> Option<Seq<char>> {
    match o {
        Some(f) => Some(f@.text),
        None => None,
    }
}

/// Reads the trim part at `pos`.
pub fn parse_trim(s: &[char], pos: usize) -> (r: Option<(usize, (bool, Option<TrimBy>, Option<F32>))>)
    requires
        pos <= s@.len(),
    ensures
        match spec_trim_at(s@, pos as int) {
            None => r is None,
            Some((e, t)) => r matches Some((e2, t2)) && e2 == e && t2.0 == t.0 && t2.1 == t.1
                && opt_f32_view(t2.2) == t.2,
        },
{
    let n = s.len();
    match tag(s, pos, "trim") {
        Some(q) => {
            let (q2, by) = match tag(s, q, ":top-left") {
                Some(e) => (e, Some(TrimBy::TopLeft)),
                None => match tag(s, q, ":bottom-right") {
                    Some(e) => (e, Some(TrimBy::BottomRight)),
                    None => (q, None),
                },
            };
            let colon = char_at_is(s, q2, ':');
            let mut q3 = q2;
            let mut tol: Option<F32> = None;
            if colon {
                let e = scan_digits(s, q2 + 1);
                if e > q2 + 1 {
                    proof {
                        lemma_digits_end(s@, q2 + 1);
                    }
                    let t = crate::grammar::decimal_chars(false, s, q2 + 1, e, 0, 0);
                    proof {
                        assert(s@.subrange(0, 0) =~= Seq::<char>::empty());
                    }
                    tol = Some(F32 { text: string_of(&t) });
                    q3 = e;
                }
            }
            if char_at_is(s, q3, '/') {
                Some((q3 + 1, (true, by, tol)))
            } else {
                None
            }
        },
        None => {
            if char_at_is(s, pos, '/') {
                Some((pos + 1, (false, None, None)))
            } else {
                None
            }
        },
    }
}

fn decimal_f32(s: &[char], pos: usize) -> (r: Option<(usize, F32)>)
    requires
        pos <= s@.len(),
    ensures
        match decimal_at(s@, pos as int) {
            None => r is None,
            Some((e, t)) => r matches Some((e2, f)) && e2 == e && f@.text == t,
        },
{
    match parse_decimal(s, pos) {
        Some((e, t)) => Some((e, F32 { text: string_of(&t) })),
        None => None,
    }
}

/// Reads the crop part at `pos`.
pub fn parse_crop(s: &[char], pos: usize) -> (r: Option<(usize, (F32, F32, F32, F32))>)
    requires
        pos <= s@.len(),
    ensures
        match spec_crop_at(s@, pos as int) {
            None => r is None,
            Some((e, c)) => r matches Some((e2, c2)) && e2 == e && c2.0@.text == c.0 && c2.1@.text
                == c.1 && c2.2@.text == c.2 && c2.3@.text == c.3,
        },
{
    let n = s.len();
    proof {
        crate::grammar::lemma_decimal_at_end(s@, pos as int);
    }
    let (e1, l) = match decimal_f32(s, pos) {
        Some(x) => x,
        None => return None,
    };
    if !char_at_is(s, e1, 'x') {
        return None;
    }
    proof {
        crate::grammar::lemma_decimal_at_end(s@, e1 + 1);
    }
    let (e2, t) = match decimal_f32(s, e1 + 1) {
        Some(x) => x,
        None => return None,
    };
    if !char_at_is(s, e2, ':') {
        return None;
    }
    proof {
        crate::grammar::lemma_decimal_at_end(s@, e2 + 1);
    }
    let (e3, rr) = match decimal_f32(s, e2 + 1) {
        Some(x) => x,
        None => return None,
    };
    if !char_at_is(s, e3, 'x') {
        return None;
    }
    proof {
        crate::grammar::lemma_decimal_at_end(s@, e3 + 1);
    }
    let (e4, b) = match decimal_f32(s, e3 + 1) {
        Some(x) => x,
        None => return None,
    };
    if !char_at_is(s, e4, '/') {
        return None;
    }
    Some((e4 + 1, (l, t, rr, b)))
}

/// Reads an optional size at `q`.
fn parse_dim_num(s: &[char], q: usize) -> (r: (usize, Option<i32>))
    requires
        q <= s@.len(),
        !(dim_num(s@, q as int) is Crash),
    ensures
        dim_num(s@, q as int) matches Lexed::Yes(e, v) && r.0 == e && r.1 == (match v {
            Some(x) => Some(x as i32),
            None => None::<i32>,
        }),
        r.0 <= s@.len(),
{
    let n = s.len();
    let neg = char_at_is(s, q, '-');
    let p = if neg {
        q + 1
    } else {
        q
    };
    let e = scan_digits(s, p);
    proof {
        lemma_digits_end(s@, p as int);
    }
    if e == p {
        return (q, None);
    }
    let max: u64 = if neg {
        2147483648
    } else {
        2147483647
    };
    match crate::grammar::parse_uint(s, p, max) {
        Some((e2, v)) => {
            let val: i32 = if neg {
                if v == 2147483648 {
                    i32::MIN
                } else {
                    -(v as i32)
                }
            } else {
                v as i32
            };
            (e2, Some(val))
        },
        None => {
            proof {
                assert(false);
            }
            (q, None)
        },
    }
}

/// Reads an optional size at `q`, saying whether it does not fit.
fn check_dim_num(s: &[char], q: usize) -> (r: (bool, usize, Option<i64>))
    requires
        q <= s@.len(),
    ensures
        r.0 == dim_num(s@, q as int) is Crash,
        !r.0 ==> (dim_num(s@, q as int) matches Lexed::Yes(e, v) && r.1 == e && r.2 == (match v {
            Some(x) => Some(x as i64),
            None => None::<i64>,
        })),
        r.1 <= s@.len(),
{
    let n = s.len();
    let neg = char_at_is(s, q, '-');
    let p = if neg {
        q + 1
    } else {
        q
    };
    let e = scan_digits(s, p);
    proof {
        lemma_digits_end(s@, p as int);
    }
    if e == p {
        return (false, q, None);
    }
    let max: u64 = if neg {
        2147483648
    } else {
        2147483647
    };
    match crate::grammar::parse_uint(s, p, max) {
        Some((e2, v)) => {
            let val: i64 = if neg {
                -(v as i64)
            } else {
                v as i64
            };
            (false, e2, Some(val))
        },
        None => (true, q, None),
    }
}

/// Whether reading a size at `pos` crashes: a size outside 32 bits, or exactly `i32::MIN`.
pub fn dims_crash(s: &[char], pos: usize) -> (r: bool)
    requires
        pos <= s@.len(),
    ensures
        r == spec_dims_at(s@, pos as int) is Crash,
{
    let n = s.len();
    let (c1, q, w) = check_dim_num(s, pos);
    if c1 {
        return true;
    }
    if !char_at_is(s, q, 'x') {
        return false;
    }
    let (c2, q2, h) = check_dim_num(s, q + 1);
    if c2 {
        return true;
    }
    if !char_at_is(s, q2, '/') {
        return false;
    }
    w == Some(-2147483648i64) || h == Some(-2147483648i64)
}

/// Reads `[w] x [h] /` at `pos`: absolute sizes and the flips that their signs ask for.
pub fn parse_dimensions(s: &[char], pos: usize) -> (r: Option<
    (usize, (Option<i32>, Option<i32>, bool, bool)),
>)
    requires
        pos <= s@.len(),
        !(spec_dims_at(s@, pos as int) is Crash),
    ensures
        match spec_dims_at(s@, pos as int) {
            Lexed::Yes(e, d) => r == Some(
                (e as usize, (opt_abs(d.0), opt_abs(d.1), is_negative(d.0), is_negative(d.1))),
            ),
            _ => r is None,
        },
{
    let n = s.len();
    let (q, w) = parse_dim_num(s, pos);
    if !char_at_is(s, q, 'x') {
        return None;
    }
    let (q2, h) = parse_dim_num(s, q + 1);
    if !char_at_is(s, q2, '/') {
        return None;
    }
    let width = match w {
        Some(v) => Some(if v < 0 {
            -v
        } else {
            v
        }),
        None => None,
    };
    let height = match h {
        Some(v) => Some(if v < 0 {
            -v
        } else {
            v
        }),
        None => None,
    };
    let h_flip = match w {
        Some(v) => v < 0,
        None => false,
    };
    let v_flip = match h {
        Some(v) => v < 0,
        None => false,
    };
    Some((q2 + 1, (width, height, h_flip, v_flip)))
}

fn parse_halign(s: &[char], pos: usize) -> (r: Option<(usize, HAlign)>)
    requires
        pos <= s@.len(),
    ensures
        r matches Some((e, _)) ==> e <= s@.len(),
        match spec_halign_at(s@, pos as int) {
            None => r is None,
            Some((e, h)) => r matches Some((e2, h2)) && e2 as int == e && h2 == h,
        },
{
    let n = s.len();
    match tag(s, pos, "left") {
        Some(e) => if char_at_is(s, e, '/') {
            return Some((e + 1, HAlign::Left));
        },
        None => {},
    }
    match tag(s, pos, "right") {
        Some(e) => if char_at_is(s, e, '/') {
            return Some((e + 1, HAlign::Right));
        },
        None => {},
    }
    match tag(s, pos, "center") {
        Some(e) => if char_at_is(s, e, '/') {
            return Some((e + 1, HAlign::Center));
        },
        None => {},
    }
    None
}

fn parse_valign(s: &[char], pos: usize) -> (r: Option<(usize, VAlign)>)
    requires
        pos <= s@.len(),
    ensures
        r matches Some((e, _)) ==> e <= s@.len(),
        match spec_valign_at(s@, pos as int) {
            None => r is None,
            Some((e, v)) => r matches Some((e2, v2)) && e2 as int == e && v2 == v,
        },
{
    let n = s.len();
    match tag(s, pos, "top") {
        Some(e) => if char_at_is(s, e, '/') {
            return Some((e + 1, VAlign::Top));
        },
        None => {},
    }
    match tag(s, pos, "bottom") {
        Some(e) => if char_at_is(s, e, '/') {
            return Some((e + 1, VAlign::Bottom));
        },
        None => {},
    }
    match tag(s, pos, "middle") {
        Some(e) => if char_at_is(s, e, '/') {
            return Some((e + 1, VAlign::Middle));
        },
        None => {},
    }
    None
}

/// Reads the alignments at `pos`: an optional horizontal one, then an optional
/// vertical one.
pub fn parse_alignment(s: &[char], pos: usize) -> (r: (usize, Option<HAlign>, Option<VAlign>))
    requires
        pos <= s@.len(),
    ensures
        ({
            let ha = spec_halign_at(s@, pos as int);
            let p6 = match ha {
                Some((e, _)) => e,
                None => pos as int,
            };
            let va = spec_valign_at(s@, p6);
            &&& r.0 as int == match va {
                Some((e, _)) => e,
                None => p6,
            }
            &&& r.1 == match ha {
                Some((_, h)) => Some(h),
                None => None::<HAlign>,
            }
            &&& r.2 == match va {
                Some((_, v)) => Some(v),
                None => None::<VAlign>,
            }
        }),
        r.0 <= s@.len(),
{
    let (p6, ha) = match parse_halign(s, pos) {
        Some((e, h)) => (e, Some(h)),
        None => (pos, None),
    };
    let (p7, va) = match parse_valign(s, p6) {
        Some((e, v)) => (e, Some(v)),
        None => (p6, None),
    };
    (p7, ha, va)
}

/// End of the name at `pos`.
pub fn scan_name(s: &[char], pos: usize) -> (r: usize)
    requires
        pos <= s@.len(),
    ensures
        r == name_end(s@, pos as int),
        pos <= r <= s@.len(),
{
    let n = s.len();
    let mut i = pos;
    while i < n && (char_alphanumeric(s[i]) || s[i] == '_')
        invariant
            n == s@.len(),
            pos <= i <= n,
            name_end(s@, pos as int) == name_end(s@, i as int),
        decreases n - i,
    {
        i = i + 1;
    }
    i
}

/// Position of the closing `)` for a parenthesis opened just before `start`.
pub fn find_close(s: &[char], start: usize) -> (r: Option<usize>)
    requires
        start <= s@.len(),
    ensures
        match close_from(s@, start as int, 0) {
            Some(c) => r == Some(c as usize),
            None => r is None,
        },
{
    let n = s.len();
    let mut i = start;
    let mut depth: usize = 0;
    while i < n
        invariant
            n == s@.len(),
            start <= i <= n,
            depth <= i,
            close_from(s@, start as int, 0) == close_from(s@, i as int, depth as nat),
        decreases n - i,
    {
        let c = s[i];
        if c == '(' {
            depth = depth + 1;
        } else if c == ')' {
            if depth == 0 {
                return Some(i);
            }
            depth = depth - 1;
        }
        i = i + 1;
    }
    None
}

fn sub_string(s: &[char], lo: usize, hi: usize) -> (r: String)
    requires
        lo <= hi <= s@.len(),
    ensures
        r@ == s@.subrange(lo as int, hi as int),
{
    let mut out: Vec<char> = Vec::new();
    push_range(&mut out, s, lo, hi);
    string_of(&out)
}

/// Reads one filter at `pos`.
fn parse_filter(s: &[char], pos: usize) -> (r: Option<(usize, Filter)>)
    requires
        pos <= s@.len(),
    ensures
        match cyber_filter_at(s@, pos as int) {
            None => r is None,
            Some((e, f)) => r matches Some((e2, f2)) && e2 == e && f2@ == f,
        },
        r matches Some((e, _)) ==> pos < e <= s@.len(),
{
    let n = s.len();
    let ne = scan_name(s, pos);
    if ne == pos {
        return None;
    }
    proof {
        lemma_cyber_filter_progress(s@, pos as int);
    }
    if char_at_is(s, ne, '(') {
        match find_close(s, ne + 1) {
            Some(c) => {
                proof {
                    lemma_close_from(s@, ne + 1, 0);
                }
                let args = if c > ne + 1 {
                    Some(sub_string(s, ne + 1, c))
                } else {
                    None
                };
                return Some((c + 1, Filter { name: Some(sub_string(s, pos, ne)), args }));
            },
            None => {},
        }
    }
    Some((ne, Filter { name: Some(sub_string(s, pos, ne)), args: None }))
}

pub open spec fn views(fs: Seq<Filter>) -> Seq<Filter<Seq<char>>> {
    fs.map_values(|f: Filter| f@)
}

/// Reads filters separated by `:` at `pos`.
fn parse_filter_list(s: &[char], pos: usize) -> (r: (usize, Vec<Filter>))
    requires
        pos <= s@.len(),
    ensures
        r.0 as int == filter_list(s@, pos as int).0,
        views(r.1@) == filter_list(s@, pos as int).1,
        r.0 <= s@.len(),
{
    let n = s.len();
    let mut out: Vec<Filter> = Vec::new();
    let (mut cur, first) = match parse_filter(s, pos) {
        Some((e, f)) => (e, f),
        None => {
            proof {
                assert(views(out@) =~= Seq::<Filter<Seq<char>>>::empty());
            }
            return (pos, out);
        },
    };
    out.push(first);
    proof {
        let l = filter_list(s@, pos as int);
        assert(views(out@) =~= seq![first@]);
        assert(l.1 =~= views(out@) + more_filters(s@, cur as int).1);
    }
    loop
        invariant
            n == s@.len(),
            cur <= s@.len(),
            filter_list(s@, pos as int).0 == more_filters(s@, cur as int).0,
            filter_list(s@, pos as int).1 == views(out@) + more_filters(s@, cur as int).1,
        decreases s@.len() - cur,
    {
        if !char_at_is(s, cur, ':') {
            proof {
                assert(views(out@) + Seq::<Filter<Seq<char>>>::empty() =~= views(out@));
            }
            return (cur, out);
        }
        match parse_filter(s, cur + 1) {
            Some((e, f)) => {
                let ghost before = views(out@);
                out.push(f);
                proof {
                    assert(views(out@) =~= before.push(f@));
                    assert(more_filters(s@, cur as int).1 =~= seq![f@] + more_filters(s@, e as int).1);
                    assert(before + more_filters(s@, cur as int).1 =~= views(out@) + more_filters(
                        s@,
                        e as int,
                    ).1);
                }
                cur = e;
            },
            None => {
                proof {
                    assert(views(out@) + Seq::<Filter<Seq<char>>>::empty() =~= views(out@));
                }
                return (cur, out);
            },
        }
    }
}

/// Reads `filters:` and its list at `pos`, with the optional closing `/`.
/// Without the prefix, nothing is read and there are no filters.
pub fn parse_filters_at(s: &[char], pos: usize) -> (r: (usize, Vec<Filter>))
    requires
        pos <= s@.len(),
    ensures
        r.0 as int == spec_filters_at(s@, pos as int).0,
        views(r.1@) == spec_filters_at(s@, pos as int).1,
        r.0 <= s@.len(),
{
    let n = s.len();
    match tag(s, pos, "filters:") {
        Some(q) => {
            let (e, fs) = parse_filter_list(s, q);
            if char_at_is(s, e, '/') {
                (e + 1, fs)
            } else {
                (e, fs)
            }
        },
        None => {
            let out: Vec<Filter> = Vec::new();
            proof {
                assert(views(out@) =~= Seq::<Filter<Seq<char>>>::empty());
            }
            (pos, out)
        },
    }
}

/// Reads `filters:` and its list from the start of `input`, and what follows.
pub fn parse_filters(input: &str) -> (r: Result<(&str, Vec<Filter>), ParseError>)
    ensures
        r matches Ok((rest, fs)) && rest@ == input@.subrange(
            spec_filters_at(input@, 0).0,
            input@.len() as int,
        ) && views(fs@) == spec_filters_at(input@, 0).1,
{
    let s = str_chars(input);
    let (e, fs) = parse_filters_at(&s, 0);
    Ok((input.substring_char(e, s.len()), fs))
}

/// Whether reading `input` as a cyberpunk path crashes on a size it cannot hold.
pub fn path_crashes(input: &str) -> (r: bool)
    ensures
        r == cyber_parse(input@) is Crash,
{
    let s = str_chars(input);
    let p1 = match tag(&s, 0, "meta/") {
        Some(e) => e,
        None => return false,
    };
    let p2 = match parse_trim(&s, p1) {
        Some((e, _)) => e,
        None => return false,
    };
    proof {
        crate::grammar::lemma_decimal_at_end(s@, p2 as int);
    }
    let p3 = match parse_crop(&s, p2) {
        Some((e, _)) => e,
        None => p2,
    };
    let p4 = match tag(&s, p3, "fit-in/") {
        Some(e) => e,
        None => return false,
    };
    dims_crash(&s, p4)
}

/// Reads a cyberpunk path.
pub fn parse_path(input: &str) -> (r: Result<(&str, Params), ParseError>)
    requires
        !(cyber_parse(input@) is Crash),
    ensures
        match cyber_parse(input@) {
            Lexed::Yes(e, m) => r matches Ok((rest, p)) && rest@ == input@.subrange(
                e,
                input@.len() as int,
            ) && p@ == m,
            _ => r is Err,
        },
{
    let s = str_chars(input);
    let n = s.len();
    let p1 = match tag(&s, 0, "meta/") {
        Some(e) => e,
        None => return Err(ParseError),
    };
    let (p2, (trim, trim_by, trim_tolerance)) = match parse_trim(&s, p1) {
        Some(x) => x,
        None => return Err(ParseError),
    };
    let (p3, crop) = match parse_crop(&s, p2) {
        Some((e, c)) => (e, Some(c)),
        None => (p2, None),
    };
    let p4 = match tag(&s, p3, "fit-in/") {
        Some(e) => e,
        None => return Err(ParseError),
    };
    let (p5, (width, height, h_flip, v_flip)) = match parse_dimensions(&s, p4) {
        Some(x) => x,
        None => return Err(ParseError),
    };
    let (p7, h_align, v_align) = parse_alignment(&s, p5);
    let p8 = match tag(&s, p7, "smart/") {
        Some(e) => e,
        None => return Err(ParseError),
    };
    let (p9, filters) = parse_filters_at(&s, p8);
    if p9 >= n {
        return Err(ParseError);
    }
    let image = sub_string(&s, p9, n);
    let (crop_left, crop_top, crop_right, crop_bottom) = match crop {
        Some((l, t, r, b)) => (Some(l), Some(t), Some(r), Some(b)),
        None => (None, None, None, None),
    };
    let params = Params {
        params: false,
        path: Some(string_of(&s)),
        image: Some(image),
        unsafe_: false,
        hash: None,
        meta: true,
        trim,
        trim_by: match trim_by {
            Some(b) => b,
            None => TrimBy::TopLeft,
        },
        trim_tolerance,
        crop_left,
        crop_top,
        crop_right,
        crop_bottom,
        fit_in: true,
        stretch: false,
        width,
        height,
        padding_left: None,
        padding_top: None,
        padding_right: None,
        padding_bottom: None,
        h_flip,
        v_flip,
        h_align,
        v_align,
        smart: true,
        filters,
    };
    proof {
        let m = cyber_parse(input@);
        assert(m matches Lexed::Yes(_, mm) && params@ =~= mm) by {
            assert(s@ == input@);
        }
    }
    Ok((input.substring_char(n, n), params))
}

} // verus!
