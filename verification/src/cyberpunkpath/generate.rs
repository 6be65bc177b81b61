//! Writes a path back from its parameters: segments for what is set, joined by `/`.
use vstd::prelude::*;
use vstd::utf8::encode_utf8;
use super::params::{
    halign_text, valign_text, Filter, HAlign, Params, ParamsModel, TrimBy, VAlign, F32,
};
use super::parse::{spec_halign_at, spec_valign_at};
use crate::digest::{form_bytes, form_encode_pair};
use crate::text::{
    has_at, int_text, join, nat_text, push_all, push_int, push_nat, push_str, str_chars, string_of,
};

verus! {

pub open spec fn opt_seg(o: Option<Seq<char>>) -> Seq<Seq<char>> {
    match o {
        Some(t) => seq![t],
        None => seq![],
    }
}

pub open spec fn spec_meta(p: ParamsModel) -> Option<Seq<char>> {
    if p.meta {
        Some("meta"@)
    } else {
        None
    }
}

/// `trim`, then `:bottom-right` for that corner, then `:` and the tolerance.
/// The segment is written whenever the corner is one of the two there are.
pub open spec fn spec_trim(p: ParamsModel) -> Option<Seq<char>> {
    if p.trim || (p.trim_by == TrimBy::TopLeft || p.trim_by == TrimBy::BottomRight) {
        Some(
            "trim"@ + (if p.trim_by == TrimBy::BottomRight {
                seq![':'] + "bottom-right"@
            } else {
                seq![]
            }) + match p.trim_tolerance {
                Some(t) => seq![':'] + t.text,
                None => seq![],
            },
        )
    } else {
        None
    }
}

pub open spec fn decimal_or_zero(o: Option<F32<Seq<char>>>) -> Seq<char> {
    match o {
        Some(f) => f.text,
        None => seq!['0'],
    }
}

/// `left x top : right x bottom`, a missing side written as zero.
pub open spec fn spec_crop(p: ParamsModel) -> Option<Seq<char>> {
    if p.crop_top is Some || p.crop_right is Some || p.crop_left is Some || p.crop_bottom is Some {
        Some(
            decimal_or_zero(p.crop_left) + seq!['x'] + decimal_or_zero(p.crop_top) + seq![':']
                + decimal_or_zero(p.crop_right) + seq!['x'] + decimal_or_zero(p.crop_bottom),
        )
    } else {
        None
    }
}

pub open spec fn spec_fit_in(p: ParamsModel) -> Option<Seq<char>> {
    if p.fit_in {
        Some("fit-in"@)
    } else {
        None
    }
}

pub open spec fn spec_stretch(p: ParamsModel) -> Option<Seq<char>> {
    if p.stretch {
        Some("stretch"@)
    } else {
        None
    }
}

pub open spec fn unwrap_or_zero(o: Option<i32>) -> int {
    match o {
        Some(v) => v as int,
        None => 0,
    }
}

pub open spec fn abs_text(v: int) -> Seq<char> {
    nat_text(
        if v < 0 {
            (-v) as nat
        } else {
            v as nat
        },
    )
}

/// Flip mark and size of width, then of height, written one after the other:
/// a `-` when a flip and a negative size do not cancel, then the absolute size.
pub open spec fn spec_size_and_flip(p: ParamsModel) -> Option<Seq<char>> {
    if p.h_flip || p.width is Some || p.v_flip || p.height is Some || p.padding_left is Some
        || p.padding_top is Some {
        let w = unwrap_or_zero(p.width);
        let h = unwrap_or_zero(p.height);
        let hf = p.h_flip != (w < 0);
        let vf = p.v_flip != (h < 0);
        Some(
            (if hf {
                seq!['-']
            } else {
                seq![]
            }) + abs_text(w) + (if vf {
                seq!['-']
            } else {
                seq![]
            }) + abs_text(h),
        )
    } else {
        None
    }
}

/// `left x top`, or `left x top : right x bottom` when the sides differ.
pub open spec fn spec_padding(p: ParamsModel) -> Option<Seq<char>> {
    if p.padding_left is Some || p.padding_top is Some || p.padding_right is Some
        || p.padding_bottom is Some {
        let l = unwrap_or_zero(p.padding_left);
        let t = unwrap_or_zero(p.padding_top);
        let r = unwrap_or_zero(p.padding_right);
        let b = unwrap_or_zero(p.padding_bottom);
        if l == r && t == b {
            Some(int_text(l) + seq!['x'] + int_text(t))
        } else {
            Some(
                int_text(l) + seq!['x'] + int_text(t) + seq![':'] + int_text(r) + seq!['x']
                    + int_text(b),
            )
        }
    } else {
        None
    }
}

pub open spec fn spec_halign(p: ParamsModel) -> Option<Seq<char>> {
    match p.h_align {
        Some(HAlign::Left) => Some(halign_text(HAlign::Left)),
        Some(HAlign::Right) => Some(halign_text(HAlign::Right)),
        _ => None,
    }
}

pub open spec fn spec_valign(p: ParamsModel) -> Option<Seq<char>> {
    match p.v_align {
        Some(VAlign::Top) => Some(valign_text(VAlign::Top)),
        Some(VAlign::Bottom) => Some(valign_text(VAlign::Bottom)),
        _ => None,
    }
}

pub open spec fn spec_smart(p: ParamsModel) -> Option<Seq<char>> {
    if p.smart {
        Some("smart"@)
    } else {
        None
    }
}

pub open spec fn filter_is_empty(f: Filter<Seq<char>>) -> bool {
    f.name is None && f.args is None
}

/// `name(args)` for each filter that has a name or arguments.
pub open spec fn filter_texts(fs: Seq<Filter<Seq<char>>>) -> Seq<Seq<char>>
    decreases fs.len(),
{
    if fs.len() == 0 {
        seq![]
    } else {
        let f = fs.last();
        filter_texts(fs.drop_last()) + if filter_is_empty(f) {
            seq![]
        } else {
            seq![f.name.unwrap() + seq!['('] + f.args.unwrap() + seq![')']]
        }
    }
}

pub open spec fn spec_filters(p: ParamsModel) -> Option<Seq<char>> {
    if p.filters.len() > 0 {
        Some("filters:"@ + join(filter_texts(p.filters), seq![':']))
    } else {
        None
    }
}

/// Image names that a parser would read as parameters.
pub open spec fn image_needs_escape(img: Seq<char>) -> bool {
    img.contains('?') || has_at(img, 0, "trim/"@) || has_at(img, 0, "meta/"@) || has_at(
        img,
        0,
        "fit-in/"@,
    ) || has_at(img, 0, "stretch/"@) || has_at(img, 0, "top/"@) || has_at(img, 0, "left/"@)
        || has_at(img, 0, "right/"@) || has_at(img, 0, "bottom/"@) || has_at(img, 0, "center/"@)
        || has_at(img, 0, "smart/"@)
}

/// The image, or `=` and its form encoding where it would be misread.
pub open spec fn spec_image(p: ParamsModel) -> Option<Seq<char>> {
    match p.image {
        Some(img) => if image_needs_escape(img) {
            Some(seq!['='] + form_bytes(encode_utf8(img)))
        } else {
            Some(img)
        },
        None => None,
    }
}

pub open spec fn path_segments(p: ParamsModel) -> Seq<Seq<char>> {
    opt_seg(spec_meta(p)) + opt_seg(spec_trim(p)) + opt_seg(spec_crop(p)) + opt_seg(
        spec_fit_in(p),
    ) + opt_seg(spec_stretch(p)) + opt_seg(spec_size_and_flip(p)) + opt_seg(spec_padding(p))
        + opt_seg(spec_valign(p)) + opt_seg(spec_halign(p)) + opt_seg(spec_smart(p)) + opt_seg(
        spec_filters(p),
    ) + opt_seg(spec_image(p))
}

/// The path that the parameters generate.
pub open spec fn generated_path(p: ParamsModel) -> Seq<char> {
    join(path_segments(p), seq!['/'])
}

/// Parameters that generation accepts: sizes that have an absolute value, and
/// filters with a name and arguments wherever they have either.
pub open spec fn generate_ok(p: ParamsModel) -> bool {
    &&& p.width != Some(i32::MIN)
    &&& p.height != Some(i32::MIN)
    &&& forall|i: int|
        0 <= i < p.filters.len() && !filter_is_empty(#[trigger] p.filters[i]) ==> p.filters[i].name is Some
            && p.filters[i].args is Some
}

pub proof fn lemma_join_push(parts: Seq<Seq<char>>, x: Seq<char>, sep: Seq<char>)
    ensures
        join(parts.push(x), sep) == if parts.len() == 0 {
            x
        } else {
            join(parts, sep) + sep + x
        },
{
    assert(parts.push(x).drop_last() =~= parts);
    if parts.len() == 0 {
        assert(parts.push(x) =~= seq![x]);
    }
}

pub open spec fn opt_chars(o: Option<Vec<char>>) -> Option<Seq<char>> {
    match o {
        Some(v) => Some(v@),
        None => None,
    }
}

/// Appends a segment to a path under construction.
fn add_part(
    out: &mut Vec<char>,
    count: &mut usize,
    part: Option<Vec<char>>,
    sep: char,
    Ghost(parts): Ghost<Seq<Seq<char>>>,
) -> (r: Ghost<Seq<Seq<char>>>)
    requires
        old(out)@ == join(parts, seq![sep]),
        *old(count) as int == parts.len(),
        parts.len() < usize::MAX,
    ensures
        r@ == parts + opt_seg(opt_chars(part)),
        final(out)@ == join(r@, seq![sep]),
        *final(count) as int == r@.len(),
{
    match part {
        Some(v) => {
            if *count > 0 {
                out.push(sep);
            }
            push_all(out, &v);
            *count = *count + 1;
            proof {
                lemma_join_push(parts, v@, seq![sep]);
                assert(parts + seq![v@] =~= parts.push(v@));
            }
            Ghost(parts + seq![v@])
        },
        None => {
            proof {
                assert(parts + seq![] =~= parts);
            }
            Ghost(parts + seq![])
        },
    }
}

fn lit(s: &str) -> (r: Vec<char>)
    ensures
        r@ == s@,
{
    str_chars(s)
}

fn generate_meta(p: &Params) -> (r: Option<Vec<char>>)
    ensures
        opt_chars(r) == spec_meta(p@),
{
    if p.meta {
        Some(lit("meta"))
    } else {
        None
    }
}

fn generate_trim(p: &Params) -> (r: Option<Vec<char>>)
    ensures
        opt_chars(r) == spec_trim(p@),
{
    if p.trim || (p.trim_by == TrimBy::TopLeft || p.trim_by == TrimBy::BottomRight) {
        let mut out = lit("trim");
        if p.trim_by == TrimBy::BottomRight {
            out.push(':');
            push_str(&mut out, "bottom-right");
        }
        match &p.trim_tolerance {
            Some(t) => {
                out.push(':');
                push_str(&mut out, t.as_str());
            },
            None => {},
        }
        proof {
            assert(out@ =~= spec_trim(p@).unwrap());
        }
        Some(out)
    } else {
        None
    }
}

fn push_decimal_or_zero(out: &mut Vec<char>, o: &Option<F32>)
    ensures
        final(out)@ == old(out)@ + decimal_or_zero(
            match o {
                Some(f) => Some(f@),
                None => None,
            },
        ),
{
    match o {
        Some(f) => push_str(out, f.as_str()),
        None => out.push('0'),
    }
}

fn generate_crop(p: &Params) -> (r: Option<Vec<char>>)
    ensures
        opt_chars(r) == spec_crop(p@),
{
    if p.crop_top.is_some() || p.crop_right.is_some() || p.crop_left.is_some()
        || p.crop_bottom.is_some() {
        let mut out: Vec<char> = Vec::new();
        push_decimal_or_zero(&mut out, &p.crop_left);
        out.push('x');
        push_decimal_or_zero(&mut out, &p.crop_top);
        out.push(':');
        push_decimal_or_zero(&mut out, &p.crop_right);
        out.push('x');
        push_decimal_or_zero(&mut out, &p.crop_bottom);
        proof {
            assert(out@ =~= spec_crop(p@).unwrap());
        }
        Some(out)
    } else {
        None
    }
}

fn generate_fit_in(p: &Params) -> (r: Option<Vec<char>>)
    ensures
        opt_chars(r) == spec_fit_in(p@),
{
    if p.fit_in {
        Some(lit("fit-in"))
    } else {
        None
    }
}

fn generate_stretch(p: &Params) -> (r: Option<Vec<char>>)
    ensures
        opt_chars(r) == spec_stretch(p@),
{
    if p.stretch {
        Some(lit("stretch"))
    } else {
        None
    }
}

fn push_abs(out: &mut Vec<char>, v: i32)
    requires
        v != i32::MIN,
    ensures
        final(out)@ == old(out)@ + abs_text(v as int),
{
    let a: i32 = if v < 0 {
        -v
    } else {
        v
    };
    push_nat(out, a as u64);
}

fn generate_size_and_flip(p: &Params) -> (r: Option<Vec<char>>)
    requires
        generate_ok(p@),
    ensures
        opt_chars(r) == spec_size_and_flip(p@),
{
    if p.h_flip || p.width.is_some() || p.v_flip || p.height.is_some() || p.padding_left.is_some()
        || p.padding_top.is_some() {
        let width: i32 = match p.width {
            Some(w) => w,
            None => 0,
        };
        let height: i32 = match p.height {
            Some(h) => h,
            None => 0,
        };
        let h_flip = p.h_flip ^ (width < 0);
        let v_flip = p.v_flip ^ (height < 0);
        let mut out: Vec<char> = Vec::new();
        if h_flip {
            out.push('-');
        }
        push_abs(&mut out, width);
        if v_flip {
            out.push('-');
        }
        push_abs(&mut out, height);
        proof {
            assert(out@ =~= spec_size_and_flip(p@).unwrap());
        }
        Some(out)
    } else {
        None
    }
}

fn generate_padding(p: &Params) -> (r: Option<Vec<char>>)
    ensures
        opt_chars(r) == spec_padding(p@),
{
    if p.padding_left.is_some() || p.padding_top.is_some() || p.padding_right.is_some()
        || p.padding_bottom.is_some() {
        let left: i32 = match p.padding_left {
            Some(v) => v,
            None => 0,
        };
        let top: i32 = match p.padding_top {
            Some(v) => v,
            None => 0,
        };
        let right: i32 = match p.padding_right {
            Some(v) => v,
            None => 0,
        };
        let bottom: i32 = match p.padding_bottom {
            Some(v) => v,
            None => 0,
        };
        let mut out: Vec<char> = Vec::new();
        push_int(&mut out, left as i64);
        out.push('x');
        push_int(&mut out, top as i64);
        if !(left == right && top == bottom) {
            out.push(':');
            push_int(&mut out, right as i64);
            out.push('x');
            push_int(&mut out, bottom as i64);
        }
        proof {
            assert(out@ =~= spec_padding(p@).unwrap());
        }
        Some(out)
    } else {
        None
    }
}

fn generate_halign(p: &Params) -> (r: Option<Vec<char>>)
    ensures
        opt_chars(r) == spec_halign(p@),
{
    match p.h_align {
        Some(HAlign::Left) => Some(lit(HAlign::Left.as_str())),
        Some(HAlign::Right) => Some(lit(HAlign::Right.as_str())),
        _ => None,
    }
}

fn generate_valign(p: &Params) -> (r: Option<Vec<char>>)
    ensures
        opt_chars(r) == spec_valign(p@),
{
    match p.v_align {
        Some(VAlign::Top) => Some(lit(VAlign::Top.as_str())),
        Some(VAlign::Bottom) => Some(lit(VAlign::Bottom.as_str())),
        _ => None,
    }
}

fn generate_smart(p: &Params) -> (r: Option<Vec<char>>)
    ensures
        opt_chars(r) == spec_smart(p@),
{
    if p.smart {
        Some(lit("smart"))
    } else {
        None
    }
}

fn generate_filters(p: &Params) -> (r: Option<Vec<char>>)
    requires
        generate_ok(p@),
    ensures
        opt_chars(r) == spec_filters(p@),
{
    if p.filters.len() == 0 {
        return None;
    }
    let ghost fs = p@.filters;
    let mut out = lit("filters:");
    let mut count: usize = 0;
    let mut parts: Ghost<Seq<Seq<char>>> = Ghost(Seq::empty());
    let mut i: usize = 0;
    let mut body: Vec<char> = Vec::new();
    while i < p.filters.len()
        invariant
            i <= p.filters@.len(),
            fs == p@.filters,
            fs.len() == p.filters@.len(),
            generate_ok(p@),
            parts@ == filter_texts(fs.take(i as int)),
            body@ == join(parts@, seq![':']),
            count as int == parts@.len(),
            count <= i,
        decreases p.filters@.len() - i,
    {
        let f = &p.filters[i];
        proof {
            assert(fs[i as int] == f@);
            assert(fs.take(i + 1).drop_last() =~= fs.take(i as int));
            assert(fs.take(i + 1).last() == f@);
        }
        let part: Option<Vec<char>> = if f.is_empty() {
            None
        } else {
            let mut t: Vec<char> = Vec::new();
            match (&f.name, &f.args) {
                (Some(n), Some(a)) => {
                    push_str(&mut t, n.as_str());
                    t.push('(');
                    push_str(&mut t, a.as_str());
                    t.push(')');
                },
                _ => {
                    proof {
                        assert(!filter_is_empty(fs[i as int]));
                    }
                },
            }
            Some(t)
        };
        parts = add_part(&mut body, &mut count, part, ':', parts);
        proof {
            if !filter_is_empty(f@) {
                assert(opt_chars(part) == Some(
                    f@.name.unwrap() + seq!['('] + f@.args.unwrap() + seq![')'],
                ));
            }
            assert(parts@ =~= filter_texts(fs.take(i + 1)));
        }
        i = i + 1;
    }
    proof {
        assert(fs.take(fs.len() as int) =~= fs);
    }
    push_all(&mut out, &body);
    Some(out)
}

fn starts_with_lit(img: &[char], prefix: &str) -> (r: bool)
    ensures
        r == has_at(img@, 0, prefix@),
{
    let p = str_chars(prefix);
    crate::text::starts_at(img, 0, &p)
}

fn generate_image(p: &Params) -> (r: Option<Vec<char>>)
    ensures
        opt_chars(r) == spec_image(p@),
{
    match &p.image {
        Some(image) => {
            let cs = str_chars(image.as_str());
            let has_q = crate::text::contains_char(&cs, '?');
            if has_q || starts_with_lit(&cs, "trim/") || starts_with_lit(&cs, "meta/")
                || starts_with_lit(&cs, "fit-in/") || starts_with_lit(&cs, "stretch/")
                || starts_with_lit(&cs, "top/") || starts_with_lit(&cs, "left/")
                || starts_with_lit(&cs, "right/") || starts_with_lit(&cs, "bottom/")
                || starts_with_lit(&cs, "center/") || starts_with_lit(&cs, "smart/") {
                let enc = form_encode_pair("", image.as_str());
                proof {
                    reveal_strlit("");
                    assert(""@ =~= Seq::<char>::empty());
                    assert(encode_utf8(Seq::<char>::empty()) =~= Seq::<u8>::empty());
                    assert(form_bytes(Seq::<u8>::empty()) =~= Seq::<char>::empty());
                    assert(enc@ =~= seq!['='] + form_bytes(encode_utf8(image@)));
                }
                Some(str_chars(enc.as_str()))
            } else {
                Some(cs)
            }
        },
        None => None,
    }
}

/// The path that the parameters generate: the segments for what is set, in a
/// fixed order, joined by `/`.
#[verifier::spinoff_prover]
#[verifier::rlimit(50)]
pub fn generate_path(p: &Params) -> (r: String)
    requires
        generate_ok(p@),
    ensures
        r@ == generated_path(p@),
{
    let mut out: Vec<char> = Vec::new();
    let mut count: usize = 0;
    let parts: Ghost<Seq<Seq<char>>> = Ghost(Seq::empty());
    let parts = add_part(&mut out, &mut count, generate_meta(p), '/', parts);
    let parts = add_part(&mut out, &mut count, generate_trim(p), '/', parts);
    let parts = add_part(&mut out, &mut count, generate_crop(p), '/', parts);
    let parts = add_part(&mut out, &mut count, generate_fit_in(p), '/', parts);
    let parts = add_part(&mut out, &mut count, generate_stretch(p), '/', parts);
    let parts = add_part(&mut out, &mut count, generate_size_and_flip(p), '/', parts);
    let parts = add_part(&mut out, &mut count, generate_padding(p), '/', parts);
    let parts = add_part(&mut out, &mut count, generate_valign(p), '/', parts);
    let parts = add_part(&mut out, &mut count, generate_halign(p), '/', parts);
    let parts = add_part(&mut out, &mut count, generate_smart(p), '/', parts);
    let parts = add_part(&mut out, &mut count, generate_filters(p), '/', parts);
    let parts = add_part(&mut out, &mut count, generate_image(p), '/', parts);
    proof {
        assert(parts@ =~= path_segments(p@));
    }
    string_of(&out)
}

/// Something that signs a path: its signature takes the place of `unsafe`.
pub trait Signer {
    fn sign(&self, path: &str) -> String;
}

/// The generated path behind `unsafe/`.
pub fn generate_unsafe(p: &Params) -> (r: String)
    requires
        generate_ok(p@),
    ensures
        r@ == "unsafe/"@ + generated_path(p@),
{
    generate(p, None)
}

/// The generated path behind the signer's signature, or behind `unsafe/`
/// without a signer.
pub fn generate(p: &Params, signer: Option<&dyn Signer>) -> (r: String)
    requires
        generate_ok(p@),
    ensures
        signer is None ==> r@ == "unsafe/"@ + generated_path(p@),
        signer is Some ==> exists|sig: Seq<char>| r@ == sig + seq!['/'] + generated_path(p@),
{
    let img_path = generate_path(p);
    let mut out: Vec<char> = Vec::new();
    match signer {
        Some(s) => {
            let sig = s.sign(img_path.as_str());
            push_str(&mut out, sig.as_str());
            out.push('/');
            push_str(&mut out, img_path.as_str());
            proof {
                assert(out@ =~= sig@ + seq!['/'] + generated_path(p@));
            }
        },
        None => {
            push_str(&mut out, "unsafe/");
            push_str(&mut out, img_path.as_str());
        },
    }
    string_of(&out)
}


/// The alignment parts of a generated path read back as the alignments that
/// were given: followed by its `/`, the vertical part is read by the path
/// grammar as the same `top` or `bottom`, and the horizontal part as the same
/// `left` or `right`; `middle`, `center` and no alignment write no part.
pub proof fn law_alignment_parts_read_back(p: ParamsModel)
    ensures
        (p.v_align == Some(VAlign::Top) || p.v_align == Some(VAlign::Bottom)) ==> (spec_valign(p) matches Some(
            t,
        ) && spec_valign_at(t.push('/'), 0) == Some((t.len() + 1int, p.v_align.unwrap()))),
        (p.v_align is None || p.v_align == Some(VAlign::Middle)) ==> spec_valign(p) is None,
        (p.h_align == Some(HAlign::Left) || p.h_align == Some(HAlign::Right)) ==> (spec_halign(p) matches Some(
            t,
        ) && spec_halign_at(t.push('/'), 0) == Some((t.len() + 1int, p.h_align.unwrap()))),
        (p.h_align is None || p.h_align == Some(HAlign::Center)) ==> spec_halign(p) is None,
{
    reveal_strlit("top");
    reveal_strlit("bottom");
    reveal_strlit("middle");
    reveal_strlit("left");
    reveal_strlit("right");
    reveal_strlit("center");
    if p.v_align == Some(VAlign::Top) {
        let t = "top"@;
        assert(t.push('/').subrange(0, 3) =~= t);
        assert(t.push('/').subrange(3, 4) =~= seq!['/']);
    } else if p.v_align == Some(VAlign::Bottom) {
        let t = "bottom"@;
        assert(t.push('/').subrange(0, 6) =~= t);
        assert(t.push('/').subrange(6, 7) =~= seq!['/']);
        assert(t.push('/').subrange(0, 3)[0] == 'b');
        assert(!has_at(t.push('/'), 0, "top"@));
    }
    if p.h_align == Some(HAlign::Left) {
        let t = "left"@;
        assert(t.push('/').subrange(0, 4) =~= t);
        assert(t.push('/').subrange(4, 5) =~= seq!['/']);
    } else if p.h_align == Some(HAlign::Right) {
        let t = "right"@;
        assert(t.push('/').subrange(0, 5) =~= t);
        assert(t.push('/').subrange(5, 6) =~= seq!['/']);
        assert(t.push('/').subrange(0, 4)[0] == 'r');
        assert(!has_at(t.push('/'), 0, "left"@));
    }
}

} // verus!
