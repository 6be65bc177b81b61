//! The values inside filter arguments: colours, positions, label, watermark,
//! corner and focal parameters, and comma-separated number lists.
use vstd::prelude::*;
use super::color::{named_color_lookup, Color, NamedColor};
use super::filter::{FocalParams, LabelParams, LabelPosition, RoundedCornerParams, WatermarkParams, WatermarkPosition};
use super::type_utils::F32;
use crate::grammar::{
    char_at_is, decimal_at, int_at, lemma_decimal_at_end, lemma_digits_end, parse_decimal,
    parse_i32, parse_uint, tag, uint_at, digits_end,
};
use crate::text::{
    char_alphabetic, eq_ignore_ascii_case, has_at, is_ascii_alnum, is_hex_digit, str_chars,
    string_of, unicode_alphabetic, char_is_hex_digit, char_is_ascii_alnum, lower_char,
    char_to_lower,
};

verus! {

/// Whether `lit` stands at `pos`, ASCII letters compared without regard to case.
pub open spec fn has_at_nocase(s: Seq<char>, pos: int, lit: Seq<char>) -> bool {
    0 <= pos && pos + lit.len() <= s.len() && eq_ignore_ascii_case(
        s.subrange(pos, pos + lit.len()),
        lit,
    )
}

/// The end of `lit` at `pos`, ASCII letters compared without regard to case.
pub fn tag_no_case(s: &[char], pos: usize, lit: &str) -> (r: Option<usize>)
    requires
        pos <= s@.len(),
    ensures
        has_at_nocase(s@, pos as int, lit@) ==> r == Some((pos + lit@.len()) as usize),
        !has_at_nocase(s@, pos as int, lit@) ==> r is None,
{
    let n = s.len();
    let l = str_chars(lit);
    if l.len() > n - pos {
        return None;
    }
    let mut i: usize = 0;
    while i < l.len()
        invariant
            n == s@.len(),
            l@ == lit@,
            pos + l@.len() <= n,
            i <= l@.len(),
            forall|j: int| 0 <= j < i ==> lower_char(#[trigger] s@[pos + j]) == lower_char(l@[j]),
        decreases l@.len() - i,
    {
        if char_to_lower(s[pos + i]) != char_to_lower(l[i]) {
            proof {
                assert(s@.subrange(pos as int, pos + l@.len())[i as int] == s@[pos + i]);
            }
            return None;
        }
        i = i + 1;
    }
    proof {
        let t = s@.subrange(pos as int, pos + l@.len());
        assert forall|j: int| 0 <= j < t.len() implies lower_char(#[trigger] t[j]) == lower_char(
            l@[j],
        ) by {
            assert(t[j] == s@[pos + j]);
        }
    }
    Some(pos + l.len())
}

/// End of the run of characters other than `,` at `pos`.
pub open spec fn non_comma_end(s: Seq<char>, pos: int) -> int
    decreases s.len() - pos,
{
    if 0 <= pos < s.len() && s[pos] != ',' {
        non_comma_end(s, pos + 1)
    } else {
        pos
    }
}

/// End of the run of alphabetic characters and `_` at `pos`.
pub open spec fn alpha_end(s: Seq<char>, pos: int) -> int
    decreases s.len() - pos,
{
    if 0 <= pos < s.len() && (unicode_alphabetic(s[pos]) || s[pos] == '_') {
        alpha_end(s, pos + 1)
    } else {
        pos
    }
}

pub open spec fn is_image_char(c: char) -> bool {
    is_ascii_alnum(c) || c == '.' || c == '-' || c == '_' || c == '/' || c == ':'
}

/// End of the run of image characters (ASCII letters and digits, `. - _ / :`) at `pos`.
pub open spec fn image_end(s: Seq<char>, pos: int) -> int
    decreases s.len() - pos,
{
    if 0 <= pos < s.len() && is_image_char(s[pos]) {
        image_end(s, pos + 1)
    } else {
        pos
    }
}

pub proof fn lemma_run_ends(s: Seq<char>, pos: int)
    requires
        0 <= pos <= s.len(),
    ensures
        pos <= non_comma_end(s, pos) <= s.len(),
        pos <= alpha_end(s, pos) <= s.len(),
        pos <= image_end(s, pos) <= s.len(),
    decreases s.len() - pos,
{
    if pos < s.len() {
        lemma_run_ends(s, pos + 1);
    }
}

pub fn scan_non_comma(s: &[char], pos: usize) -> (r: usize)
    requires
        pos <= s@.len(),
    ensures
        r == non_comma_end(s@, pos as int),
        pos <= r <= s@.len(),
{
    let n = s.len();
    let mut i = pos;
    while i < n && s[i] != ','
        invariant
            n == s@.len(),
            pos <= i <= n,
            non_comma_end(s@, pos as int) == non_comma_end(s@, i as int),
        decreases n - i,
    {
        i = i + 1;
    }
    i
}

pub fn scan_alpha(s: &[char], pos: usize) -> (r: usize)
    requires
        pos <= s@.len(),
    ensures
        r == alpha_end(s@, pos as int),
        pos <= r <= s@.len(),
{
    let n = s.len();
    let mut i = pos;
    while i < n && (char_alphabetic(s[i]) || s[i] == '_')
        invariant
            n == s@.len(),
            pos <= i <= n,
            alpha_end(s@, pos as int) == alpha_end(s@, i as int),
        decreases n - i,
    {
        i = i + 1;
    }
    i
}

pub fn scan_image(s: &[char], pos: usize) -> (r: usize)
    requires
        pos <= s@.len(),
    ensures
        r == image_end(s@, pos as int),
        pos <= r <= s@.len(),
{
    let n = s.len();
    let mut i = pos;
    while i < n && (char_is_ascii_alnum(s[i]) || s[i] == '.' || s[i] == '-' || s[i] == '_' || s[i]
        == '/' || s[i] == ':')
        invariant
            n == s@.len(),
            pos <= i <= n,
            image_end(s@, pos as int) == image_end(s@, i as int),
        decreases n - i,
    {
        i = i + 1;
    }
    i
}

/// Six hexadecimal digits at `pos`.
pub open spec fn hex6_at(s: Seq<char>, pos: int) -> bool {
    0 <= pos && pos + 6 <= s.len() && forall|i: int| pos <= i < pos + 6 ==> is_hex_digit(#[trigger] s[i])
}

/// `r,g,b` with three values up to 255.
pub open spec fn rgb_at(s: Seq<char>, pos: int) -> Option<(int, (u8, u8, u8))> {
    match uint_at(s, pos, 255) {
        None => None,
        Some((e1, r)) => if !has_at(s, e1, seq![',']) {
            None
        } else {
            match uint_at(s, e1 + 1, 255) {
                None => None,
                Some((e2, g)) => if !has_at(s, e2, seq![',']) {
                    None
                } else {
                    match uint_at(s, e2 + 1, 255) {
                        None => None,
                        Some((e3, b)) => Some((e3, (r as u8, g as u8, b as u8))),
                    }
                },
            }
        },
    }
}

/// A colour at `pos`: `auto`, `blur` or `none` in any case, `r,g,b`, `#` and six
/// hex digits, or a run of letters and `_` naming a colour (an unknown name
/// reads as `none`).
pub open spec fn color_at(s: Seq<char>, pos: int) -> Option<(int, Color<Seq<char>>)> {
    if has_at_nocase(s, pos, "auto"@) {
        Some((pos + "auto"@.len(), Color::Auto))
    } else if has_at_nocase(s, pos, "blur"@) {
        Some((pos + "blur"@.len(), Color::Blur))
    } else if has_at_nocase(s, pos, "none"@) {
        Some((pos + "none"@.len(), Color::NoColor))
    } else if rgb_at(s, pos) is Some {
        let (e, c) = rgb_at(s, pos).unwrap();
        Some((e, Color::Rgb(c.0, c.1, c.2)))
    } else if has_at(s, pos, seq!['#']) && hex6_at(s, pos + 1) {
        Some((pos + 7, Color::Hex(s.subrange(pos + 1, pos + 7))))
    } else if alpha_end(s, pos) > pos {
        let e = alpha_end(s, pos);
        Some(
            (
                e,
                match named_color_lookup(s.subrange(pos, e), 0) {
                    Some(c) => Color::Named(c),
                    None => Color::NoColor,
                },
            ),
        )
    } else {
        None
    }
}

fn parse_rgb_triple(s: &[char], pos: usize) -> (r: Option<(usize, (u8, u8, u8))>)
    requires
        pos <= s@.len(),
    ensures
        match rgb_at(s@, pos as int) {
            None => r is None,
            Some((e, c)) => r matches Some((e2, c2)) && e2 as int == e && c2 == c,
        },
        r matches Some((e, _)) ==> e <= s@.len(),
{
    let n = s.len();
    let (e1, r) = match parse_uint(s, pos, 255) {
        Some(x) => x,
        None => return None,
    };
    proof {
        lemma_digits_end(s@, pos as int);
    }
    if !char_at_is(s, e1, ',') {
        return None;
    }
    let (e2, g) = match parse_uint(s, e1 + 1, 255) {
        Some(x) => x,
        None => return None,
    };
    proof {
        lemma_digits_end(s@, e1 + 1);
    }
    if !char_at_is(s, e2, ',') {
        return None;
    }
    let (e3, b) = match parse_uint(s, e2 + 1, 255) {
        Some(x) => x,
        None => return None,
    };
    proof {
        lemma_digits_end(s@, e2 + 1);
    }
    Some((e3, (r as u8, g as u8, b as u8)))
}

fn sub_string(s: &[char], lo: usize, hi: usize) -> (r: String)
    requires
        lo <= hi <= s@.len(),
    ensures
        r@ == s@.subrange(lo as int, hi as int),
{
    let mut out: Vec<char> = Vec::new();
    crate::grammar::push_range(&mut out, s, lo, hi);
    string_of(&out)
}

fn hex6(s: &[char], pos: usize) -> (r: bool)
    ensures
        r == hex6_at(s@, pos as int),
{
    let n = s.len();
    if pos > n || n - pos < 6 {
        return false;
    }
    let mut i = pos;
    while i < pos + 6
        invariant
            n == s@.len(),
            pos + 6 <= n,
            pos <= i <= pos + 6,
            forall|j: int| pos <= j < i ==> is_hex_digit(#[trigger] s@[j]),
        decreases pos + 6 - i,
    {
        if !char_is_hex_digit(s[i]) {
            return false;
        }
        i = i + 1;
    }
    true
}

/// Reads a colour at `pos`.
pub fn parse_color(s: &[char], pos: usize) -> (r: Option<(usize, Color)>)
    requires
        pos <= s@.len(),
    ensures
        match color_at(s@, pos as int) {
            None => r is None,
            Some((e, c)) => r matches Some((e2, c2)) && e2 as int == e && c2@ == c,
        },
        r matches Some((e, _)) ==> e <= s@.len(),
{
    let n = s.len();
    match tag_no_case(s, pos, "auto") {
        Some(e) => return Some((e, Color::Auto)),
        None => {},
    }
    match tag_no_case(s, pos, "blur") {
        Some(e) => return Some((e, Color::Blur)),
        None => {},
    }
    match tag_no_case(s, pos, "none") {
        Some(e) => return Some((e, Color::NoColor)),
        None => {},
    }
    match parse_rgb_triple(s, pos) {
        Some((e, (r, g, b))) => return Some((e, Color::Rgb(r, g, b))),
        None => {},
    }
    if char_at_is(s, pos, '#') && hex6(s, pos + 1) {
        return Some((pos + 7, Color::Hex(sub_string(s, pos + 1, pos + 7))));
    }
    let e = scan_alpha(s, pos);
    if e > pos {
        let name = sub_string(s, pos, e);
        let c = match NamedColor::from_str(name.as_str()) {
            Some(c) => Color::Named(c),
            None => Color::NoColor,
        };
        return Some((e, c));
    }
    None
}

/// The colour a whole text names, as the colour grammar reads it, a `#` hex
/// colour keeping the text as written; a text that is not wholly one colour
/// is `none`.
pub open spec fn color_from_text(s: Seq<char>) -> Color<Seq<char>> {
    match color_at(s, 0) {
        Some((e, c)) => if e != s.len() {
            Color::NoColor
        } else if c is Hex {
            Color::Hex(s)
        } else {
            c
        },
        None => Color::NoColor,
    }
}

impl Color {
    /// The colour a text names: `auto`, `blur`, `none`, `r,g,b`, `#rrggbb`
    /// (kept as written) or a colour name in any case.
    pub fn from_str(s: &str) -> (r: Color)
        ensures
            r@ == color_from_text(s@),
    {
        let cs = str_chars(s);
        match parse_color(&cs, 0) {
            Some((e, c)) => {
                if e != cs.len() {
                    Color::NoColor
                } else {
                    match c {
                        Color::Hex(_) => Color::Hex(string_of(&cs)),
                        other => other,
                    }
                }
            },
            None => Color::NoColor,
        }
    }
}

/// A hex colour as `Display` writes it back readably: `#` and six hex digits.
pub open spec fn written_hex(h: Seq<char>) -> bool {
    h.len() == 7 && h[0] == '#' && hex6_at(h, 1)
}

proof fn lemma_number_then(s: Seq<char>, pos: int, v: u8)
    requires
        0 <= pos,
        pos + crate::text::nat_text(v as nat).len() <= s.len(),
        s.subrange(pos, pos + crate::text::nat_text(v as nat).len()) == crate::text::nat_text(v as nat),
        pos + crate::text::nat_text(v as nat).len() == s.len() || !crate::text::is_digit(
            s[pos + crate::text::nat_text(v as nat).len()],
        ),
    ensures
        crate::grammar::uint_at(s, pos, 255) == Some(
            (pos + crate::text::nat_text(v as nat).len(), v as nat),
        ),
{
    let t = crate::text::nat_text(v as nat);
    crate::text::lemma_nat_text(v as nat);
    assert forall|i: int| pos <= i < pos + t.len() implies crate::text::is_digit(#[trigger] s[i]) by {
        assert(s[i] == s.subrange(pos, pos + t.len())[i - pos]);
    }
    crate::grammar::lemma_digits_end_at(s, pos, pos + t.len());
}

/// What `Display` writes of a colour other than a named one reads back as
/// that colour, a hex colour when written with its `#` and six digits.
pub proof fn law_unnamed_color_text_round_trip(c: Color<Seq<char>>)
    requires
        !(c is Named),
        c matches Color::Hex(h) ==> written_hex(h),
    ensures
        color_from_text(crate::imagorpath::color::color_text(c)) == c,
{
    reveal_strlit("auto");
    reveal_strlit("blur");
    reveal_strlit("none");
    let s = crate::imagorpath::color::color_text(c);
    match c {
        Color::Rgb(r, g, b) => {
            let t1 = crate::text::nat_text(r as nat);
            let t2 = crate::text::nat_text(g as nat);
            let t3 = crate::text::nat_text(b as nat);
            crate::text::lemma_nat_text(r as nat);
            crate::text::lemma_nat_text(g as nat);
            crate::text::lemma_nat_text(b as nat);
            let l1 = t1.len() as int;
            let l2 = t2.len() as int;
            let l3 = t3.len() as int;
            assert(s =~= t1 + seq![','] + t2 + seq![','] + t3);
            assert(s.subrange(0, l1) =~= t1);
            assert(s[l1] == ',');
            assert(s.subrange(l1 + 1, l1 + 1 + l2) =~= t2);
            assert(s[l1 + 1 + l2] == ',');
            assert(s.subrange(l1 + 2 + l2, l1 + 2 + l2 + l3) =~= t3);
            lemma_number_then(s, 0, r);
            lemma_number_then(s, l1 + 1, g);
            lemma_number_then(s, l1 + 2 + l2, b);
            assert(s.subrange(l1, l1 + 1) =~= seq![',']);
            assert(s.subrange(l1 + 1 + l2, l1 + 2 + l2) =~= seq![',']);
            assert(crate::text::is_digit(s[0]));
            assert(!has_at_nocase(s, 0, "auto"@)) by {
                assert(lower_char(s.subrange(0, 4)[0]) != lower_char("auto"@[0]));
            }
            assert(!has_at_nocase(s, 0, "blur"@)) by {
                assert(lower_char(s.subrange(0, 4)[0]) != lower_char("blur"@[0]));
            }
            assert(!has_at_nocase(s, 0, "none"@)) by {
                assert(lower_char(s.subrange(0, 4)[0]) != lower_char("none"@[0]));
            }
        },
        Color::Hex(h) => {
            assert(!has_at_nocase(s, 0, "auto"@)) by {
                assert(lower_char(s.subrange(0, 4)[0]) != lower_char("auto"@[0]));
            }
            assert(!has_at_nocase(s, 0, "blur"@)) by {
                assert(lower_char(s.subrange(0, 4)[0]) != lower_char("blur"@[0]));
            }
            assert(!has_at_nocase(s, 0, "none"@)) by {
                assert(lower_char(s.subrange(0, 4)[0]) != lower_char("none"@[0]));
            }
            assert(crate::grammar::digits_end(s, 0) == 0);
            assert(s.subrange(0, 1) =~= seq!['#']);
        },
        Color::Auto => {
            assert(s.subrange(0, 4) =~= "auto"@);
        },
        Color::Blur => {
            assert(!has_at_nocase(s, 0, "auto"@)) by {
                assert(lower_char(s.subrange(0, 4)[0]) != lower_char("auto"@[0]));
            }
            assert(s.subrange(0, 4) =~= "blur"@);
        },
        Color::NoColor => {
            assert(!has_at_nocase(s, 0, "auto"@)) by {
                assert(lower_char(s.subrange(0, 4)[0]) != lower_char("auto"@[0]));
            }
            assert(!has_at_nocase(s, 0, "blur"@)) by {
                assert(lower_char(s.subrange(0, 4)[0]) != lower_char("blur"@[0]));
            }
            assert(s.subrange(0, 4) =~= "none"@);
        },
        Color::Named(_) => {},
    }
}

/// A label position at `pos`: `left`, `right`, `center`, `top`, `bottom`, a
/// 32-bit integer of pixels, or a decimal percentage.
pub open spec fn label_pos_at(s: Seq<char>, pos: int) -> Option<(int, LabelPosition<Seq<char>>)> {
    if has_at(s, pos, "left"@) {
        Some((pos + "left"@.len(), LabelPosition::Left))
    } else if has_at(s, pos, "right"@) {
        Some((pos + "right"@.len(), LabelPosition::Right))
    } else if has_at(s, pos, "center"@) {
        Some((pos + "center"@.len(), LabelPosition::Center))
    } else if has_at(s, pos, "top"@) {
        Some((pos + "top"@.len(), LabelPosition::Top))
    } else if has_at(s, pos, "bottom"@) {
        Some((pos + "bottom"@.len(), LabelPosition::Bottom))
    } else {
        match int_at(s, pos) {
            Some((e, v)) => Some((e, LabelPosition::Pixels(v as i32))),
            None => match decimal_at(s, pos) {
                Some((e, t)) => Some((e, LabelPosition::Percentage(F32 { text: t }))),
                None => None,
            },
        }
    }
}

/// A watermark position at `pos`: as a label position, with `repeat` too.
pub open spec fn watermark_pos_at(s: Seq<char>, pos: int) -> Option<
    (int, WatermarkPosition<Seq<char>>),
> {
    if has_at(s, pos, "left"@) {
        Some((pos + "left"@.len(), WatermarkPosition::Left))
    } else if has_at(s, pos, "right"@) {
        Some((pos + "right"@.len(), WatermarkPosition::Right))
    } else if has_at(s, pos, "center"@) {
        Some((pos + "center"@.len(), WatermarkPosition::Center))
    } else if has_at(s, pos, "top"@) {
        Some((pos + "top"@.len(), WatermarkPosition::Top))
    } else if has_at(s, pos, "bottom"@) {
        Some((pos + "bottom"@.len(), WatermarkPosition::Bottom))
    } else if has_at(s, pos, "repeat"@) {
        Some((pos + "repeat"@.len(), WatermarkPosition::Repeat))
    } else {
        match int_at(s, pos) {
            Some((e, v)) => Some((e, WatermarkPosition::Pixels(v as i32))),
            None => match decimal_at(s, pos) {
                Some((e, t)) => Some((e, WatermarkPosition::Percentage(F32 { text: t }))),
                None => None,
            },
        }
    }
}

pub proof fn lemma_int_at_end(s: Seq<char>, pos: int)
    requires
        0 <= pos <= s.len(),
    ensures
        int_at(s, pos) matches Some((e, _)) ==> pos < e <= s.len(),
{
    let neg = has_at(s, pos, seq!['-']);
    let plus = has_at(s, pos, seq!['+']);
    let p = if neg || plus {
        pos + 1
    } else {
        pos
    };
    lemma_digits_end(s, p);
}

fn decimal_f32(s: &[char], pos: usize) -> (r: Option<(usize, F32)>)
    requires
        pos <= s@.len(),
    ensures
        match decimal_at(s@, pos as int) {
            None => r is None,
            Some((e, t)) => r matches Some((e2, f)) && e2 as int == e && f@.text == t,
        },
        r matches Some((e, _)) ==> pos < e <= s@.len(),
{
    proof {
        lemma_decimal_at_end(s@, pos as int);
    }
    match parse_decimal(s, pos) {
        Some((e, t)) => Some((e, F32 { text: string_of(&t) })),
        None => None,
    }
}

fn parse_label_position(s: &[char], pos: usize) -> (r: Option<(usize, LabelPosition)>)
    requires
        pos <= s@.len(),
    ensures
        match label_pos_at(s@, pos as int) {
            None => r is None,
            Some((e, p)) => r matches Some((e2, p2)) && e2 as int == e && p2@ == p,
        },
        r matches Some((e, _)) ==> e <= s@.len(),
{
    let n = s.len();
    match tag(s, pos, "left") {
        Some(e) => return Some((e, LabelPosition::Left)),
        None => {},
    }
    match tag(s, pos, "right") {
        Some(e) => return Some((e, LabelPosition::Right)),
        None => {},
    }
    match tag(s, pos, "center") {
        Some(e) => return Some((e, LabelPosition::Center)),
        None => {},
    }
    match tag(s, pos, "top") {
        Some(e) => return Some((e, LabelPosition::Top)),
        None => {},
    }
    match tag(s, pos, "bottom") {
        Some(e) => return Some((e, LabelPosition::Bottom)),
        None => {},
    }
    proof {
        lemma_int_at_end(s@, pos as int);
    }
    match parse_i32(s, pos) {
        Some((e, v)) => return Some((e, LabelPosition::Pixels(v))),
        None => {},
    }
    match decimal_f32(s, pos) {
        Some((e, f)) => Some((e, LabelPosition::Percentage(f))),
        None => None,
    }
}

fn parse_watermark_position(s: &[char], pos: usize) -> (r: Option<(usize, WatermarkPosition)>)
    requires
        pos <= s@.len(),
    ensures
        match watermark_pos_at(s@, pos as int) {
            None => r is None,
            Some((e, p)) => r matches Some((e2, p2)) && e2 as int == e && p2@ == p,
        },
        r matches Some((e, _)) ==> e <= s@.len(),
{
    let n = s.len();
    match tag(s, pos, "left") {
        Some(e) => return Some((e, WatermarkPosition::Left)),
        None => {},
    }
    match tag(s, pos, "right") {
        Some(e) => return Some((e, WatermarkPosition::Right)),
        None => {},
    }
    match tag(s, pos, "center") {
        Some(e) => return Some((e, WatermarkPosition::Center)),
        None => {},
    }
    match tag(s, pos, "top") {
        Some(e) => return Some((e, WatermarkPosition::Top)),
        None => {},
    }
    match tag(s, pos, "bottom") {
        Some(e) => return Some((e, WatermarkPosition::Bottom)),
        None => {},
    }
    match tag(s, pos, "repeat") {
        Some(e) => return Some((e, WatermarkPosition::Repeat)),
        None => {},
    }
    proof {
        lemma_int_at_end(s@, pos as int);
    }
    match parse_i32(s, pos) {
        Some((e, v)) => return Some((e, WatermarkPosition::Pixels(v))),
        None => {},
    }
    match decimal_f32(s, pos) {
        Some((e, f)) => Some((e, WatermarkPosition::Percentage(f))),
        None => None,
    }
}

/// Label parameters at `pos`: text up to a comma, then `,x,y,size,color`,
/// then optionally `,alpha` and `,font`.
pub open spec fn label_at(s: Seq<char>, pos: int) -> Option<(int, LabelParams<Seq<char>>)> {
    let te = non_comma_end(s, pos);
    if te == pos || !has_at(s, te, seq![',']) {
        None
    } else {
        match label_pos_at(s, te + 1) {
            None => None,
            Some((e1, x)) => if !has_at(s, e1, seq![',']) {
                None
            } else {
                match label_pos_at(s, e1 + 1) {
                    None => None,
                    Some((e2, y)) => if !has_at(s, e2, seq![',']) {
                        None
                    } else {
                        match uint_at(s, e2 + 1, u32::MAX as nat) {
                            None => None,
                            Some((e3, size)) => if !has_at(s, e3, seq![',']) {
                                None
                            } else {
                                match color_at(s, e3 + 1) {
                                    None => None,
                                    Some((e4, color)) => {
                                        let a = if has_at(s, e4, seq![',']) {
                                            uint_at(s, e4 + 1, 255)
                                        } else {
                                            None
                                        };
                                        let e5 = match a {
                                            Some((e, _)) => e,
                                            None => e4,
                                        };
                                        let fe = non_comma_end(s, e5 + 1);
                                        let has_font = has_at(s, e5, seq![',']) && fe > e5 + 1;
                                        Some(
                                            (
                                                if has_font {
                                                    fe
                                                } else {
                                                    e5
                                                },
                                                LabelParams {
                                                    text: s.subrange(pos, te),
                                                    x: x,
                                                    y: y,
                                                    size: size as u32,
                                                    color: color,
                                                    alpha: match a {
                                                        Some((_, v)) => Some(v as u8),
                                                        None => None,
                                                    },
                                                    font: if has_font {
                                                        Some(s.subrange(e5 + 1, fe))
                                                    } else {
                                                        None
                                                    },
                                                },
                                            ),
                                        )
                                    },
                                }
                            },
                        }
                    },
                }
            },
        }
    }
}

/// Reads label parameters at `pos`.
pub fn parse_label_params(s: &[char], pos: usize) -> (r: Option<(usize, LabelParams)>)
    requires
        pos <= s@.len(),
    ensures
        match label_at(s@, pos as int) {
            None => r is None,
            Some((e, l)) => r matches Some((e2, l2)) && e2 as int == e && l2@ == l,
        },
{
    let n = s.len();
    let te = scan_non_comma(s, pos);
    if te == pos || !char_at_is(s, te, ',') {
        return None;
    }
    let (e1, x) = match parse_label_position(s, te + 1) {
        Some(v) => v,
        None => return None,
    };
    if !char_at_is(s, e1, ',') {
        return None;
    }
    let (e2, y) = match parse_label_position(s, e1 + 1) {
        Some(v) => v,
        None => return None,
    };
    if !char_at_is(s, e2, ',') {
        return None;
    }
    proof {
        lemma_digits_end(s@, e2 + 1);
    }
    let (e3, size) = match parse_uint(s, e2 + 1, 4294967295) {
        Some(v) => v,
        None => return None,
    };
    if !char_at_is(s, e3, ',') {
        return None;
    }
    let (e4, color) = match parse_color(s, e3 + 1) {
        Some(v) => v,
        None => return None,
    };
    let a = if char_at_is(s, e4, ',') {
        proof {
            lemma_digits_end(s@, e4 + 1);
        }
        parse_uint(s, e4 + 1, 255)
    } else {
        None
    };
    let e5 = match a {
        Some((e, _)) => e,
        None => e4,
    };
    let alpha = match a {
        Some((_, v)) => Some(v as u8),
        None => None,
    };
    let comma = char_at_is(s, e5, ',');
    let mut end = e5;
    let mut font: Option<String> = None;
    if comma {
        let fe = scan_non_comma(s, e5 + 1);
        if fe > e5 + 1 {
            font = Some(sub_string(s, e5 + 1, fe));
            end = fe;
        }
    }
    let text = sub_string(s, pos, te);
    Some((end, LabelParams { text, x, y, size: size as u32, color, alpha, font }))
}

/// Watermark parameters at `pos`: image up to a comma, then `,x,y,alpha`, then
/// optionally `,width-ratio` and `,height-ratio`.
pub open spec fn watermark_at(s: Seq<char>, pos: int) -> Option<(int, WatermarkParams<Seq<char>>)> {
    let ie = non_comma_end(s, pos);
    if ie == pos || !has_at(s, ie, seq![',']) {
        None
    } else {
        match watermark_pos_at(s, ie + 1) {
            None => None,
            Some((e1, x)) => if !has_at(s, e1, seq![',']) {
                None
            } else {
                match watermark_pos_at(s, e1 + 1) {
                    None => None,
                    Some((e2, y)) => if !has_at(s, e2, seq![',']) {
                        None
                    } else {
                        match uint_at(s, e2 + 1, 255) {
                            None => None,
                            Some((e3, alpha)) => {
                                let w = if has_at(s, e3, seq![',']) {
                                    decimal_at(s, e3 + 1)
                                } else {
                                    None
                                };
                                let e4 = match w {
                                    Some((e, _)) => e,
                                    None => e3,
                                };
                                let h = if has_at(s, e4, seq![',']) {
                                    decimal_at(s, e4 + 1)
                                } else {
                                    None
                                };
                                let e5 = match h {
                                    Some((e, _)) => e,
                                    None => e4,
                                };
                                Some(
                                    (
                                        e5,
                                        WatermarkParams {
                                            image: s.subrange(pos, ie),
                                            x: x,
                                            y: y,
                                            alpha: alpha as u8,
                                            w_ratio: match w {
                                                Some((_, t)) => Some(F32 { text: t }),
                                                None => None,
                                            },
                                            h_ratio: match h {
                                                Some((_, t)) => Some(F32 { text: t }),
                                                None => None,
                                            },
                                        },
                                    ),
                                )
                            },
                        }
                    },
                }
            },
        }
    }
}

/// Reads watermark parameters at `pos`.
pub fn parse_watermark_params(s: &[char], pos: usize) -> (r: Option<(usize, WatermarkParams)>)
    requires
        pos <= s@.len(),
    ensures
        match watermark_at(s@, pos as int) {
            None => r is None,
            Some((e, w)) => r matches Some((e2, w2)) && e2 as int == e && w2@ == w,
        },
{
    let n = s.len();
    let ie = scan_non_comma(s, pos);
    if ie == pos || !char_at_is(s, ie, ',') {
        return None;
    }
    let (e1, x) = match parse_watermark_position(s, ie + 1) {
        Some(v) => v,
        None => return None,
    };
    if !char_at_is(s, e1, ',') {
        return None;
    }
    let (e2, y) = match parse_watermark_position(s, e1 + 1) {
        Some(v) => v,
        None => return None,
    };
    if !char_at_is(s, e2, ',') {
        return None;
    }
    proof {
        lemma_digits_end(s@, e2 + 1);
    }
    let (e3, alpha) = match parse_uint(s, e2 + 1, 255) {
        Some(v) => v,
        None => return None,
    };
    let w = if char_at_is(s, e3, ',') {
        decimal_f32(s, e3 + 1)
    } else {
        None
    };
    let (e4, w_ratio) = match w {
        Some((e, f)) => (e, Some(f)),
        None => (e3, None),
    };
    let h = if char_at_is(s, e4, ',') {
        decimal_f32(s, e4 + 1)
    } else {
        None
    };
    let (e5, h_ratio) = match h {
        Some((e, f)) => (e, Some(f)),
        None => (e4, None),
    };
    let image = sub_string(s, pos, ie);
    Some((e5, WatermarkParams { image, x, y, alpha: alpha as u8, w_ratio, h_ratio }))
}

/// Corner parameters at `pos`: a radius, then optionally `,ry` and `,color`.
pub open spec fn rounded_at(s: Seq<char>, pos: int) -> Option<(int, RoundedCornerParams<Seq<char>>)> {
    match uint_at(s, pos, u32::MAX as nat) {
        None => None,
        Some((e1, rx)) => {
            let ry = if has_at(s, e1, seq![',']) {
                uint_at(s, e1 + 1, u32::MAX as nat)
            } else {
                None
            };
            let e2 = match ry {
                Some((e, _)) => e,
                None => e1,
            };
            let c = if has_at(s, e2, seq![',']) {
                color_at(s, e2 + 1)
            } else {
                None
            };
            let e3 = match c {
                Some((e, _)) => e,
                None => e2,
            };
            Some(
                (
                    e3,
                    RoundedCornerParams {
                        rx: rx as u32,
                        ry: match ry {
                            Some((_, v)) => Some(v as u32),
                            None => None,
                        },
                        color: match c {
                            Some((_, col)) => Some(col),
                            None => None,
                        },
                    },
                ),
            )
        },
    }
}

/// Reads corner parameters at `pos`.
pub fn parse_rounded_corner_params(s: &[char], pos: usize) -> (r: Option<(usize, RoundedCornerParams)>)
    requires
        pos <= s@.len(),
    ensures
        match rounded_at(s@, pos as int) {
            None => r is None,
            Some((e, c)) => r matches Some((e2, c2)) && e2 as int == e && c2@ == c,
        },
{
    let n = s.len();
    proof {
        lemma_digits_end(s@, pos as int);
    }
    let (e1, rx) = match parse_uint(s, pos, 4294967295) {
        Some(v) => v,
        None => return None,
    };
    let ry = if char_at_is(s, e1, ',') {
        proof {
            lemma_digits_end(s@, e1 + 1);
        }
        parse_uint(s, e1 + 1, 4294967295)
    } else {
        None
    };
    let (e2, ryv) = match ry {
        Some((e, v)) => (e, Some(v as u32)),
        None => (e1, None),
    };
    let c = if char_at_is(s, e2, ',') {
        parse_color(s, e2 + 1)
    } else {
        None
    };
    let (e3, color) = match c {
        Some((e, col)) => (e, Some(col)),
        None => (e2, None),
    };
    Some((e3, RoundedCornerParams { rx: rx as u32, ry: ryv, color }))
}

/// A focal region `l x t : r x b`, or else a point `x x y`, each a decimal.
pub open spec fn focal_at(s: Seq<char>, pos: int) -> Option<(int, FocalParams<Seq<char>>)> {
    match decimal_at(s, pos) {
        None => None,
        Some((e1, a)) => if !has_at(s, e1, seq!['x']) {
            None
        } else {
            match decimal_at(s, e1 + 1) {
                None => None,
                Some((e2, b)) => {
                    let region = if has_at(s, e2, seq![':']) {
                        match decimal_at(s, e2 + 1) {
                            None => None,
                            Some((e3, c)) => if !has_at(s, e3, seq!['x']) {
                                None
                            } else {
                                match decimal_at(s, e3 + 1) {
                                    None => None,
                                    Some((e4, d)) => Some((e4, (c, d))),
                                }
                            },
                        }
                    } else {
                        None
                    };
                    match region {
                        Some((e4, (c, d))) => Some(
                            (
                                e4,
                                FocalParams::Region {
                                    top_left: (F32 { text: a }, F32 { text: b }),
                                    bottom_right: (F32 { text: c }, F32 { text: d }),
                                },
                            ),
                        ),
                        None => Some((e2, FocalParams::Point(F32 { text: a }, F32 { text: b }))),
                    }
                },
            }
        },
    }
}

/// Reads a focal point or region at `pos`.
pub fn parse_focal_point(s: &[char], pos: usize) -> (r: Option<(usize, FocalParams)>)
    requires
        pos <= s@.len(),
    ensures
        match focal_at(s@, pos as int) {
            None => r is None,
            Some((e, f)) => r matches Some((e2, f2)) && e2 as int == e && f2@ == f,
        },
{
    let n = s.len();
    let (e1, a) = match decimal_f32(s, pos) {
        Some(v) => v,
        None => return None,
    };
    if !char_at_is(s, e1, 'x') {
        return None;
    }
    let (e2, b) = match decimal_f32(s, e1 + 1) {
        Some(v) => v,
        None => return None,
    };
    if char_at_is(s, e2, ':') {
        match decimal_f32(s, e2 + 1) {
            Some((e3, c)) => {
                if char_at_is(s, e3, 'x') {
                    match decimal_f32(s, e3 + 1) {
                        Some((e4, d)) => {
                            return Some(
                                (e4, FocalParams::Region { top_left: (a, b), bottom_right: (c, d) }),
                            );
                        },
                        None => {},
                    }
                }
            },
            None => {},
        }
    }
    Some((e2, FocalParams::Point(a, b)))
}

/// Further unsigned values up to `max`, each after a `,`.
pub open spec fn more_uints(s: Seq<char>, pos: int, max: nat) -> (int, Seq<nat>)
    decreases s.len() - pos,
{
    if 0 <= pos <= s.len() && has_at(s, pos, seq![',']) {
        match uint_at(s, pos + 1, max) {
            None => (pos, seq![]),
            Some((e, v)) => {
                proof {
                    lemma_digits_end(s, pos + 1);
                }
                let rest = more_uints(s, e, max);
                (rest.0, seq![v] + rest.1)
            },
        }
    } else {
        (pos, seq![])
    }
}

/// Unsigned values up to `max` separated by `,`, at least one.
pub open spec fn uint_list_at(s: Seq<char>, pos: int, max: nat) -> Option<(int, Seq<nat>)> {
    match uint_at(s, pos, max) {
        None => None,
        Some((e, v)) => {
            let rest = more_uints(s, e, max);
            Some((rest.0, seq![v] + rest.1))
        },
    }
}

/// Further signed 32-bit values, each after a `,`.
pub open spec fn more_ints(s: Seq<char>, pos: int) -> (int, Seq<int>)
    decreases s.len() - pos,
{
    if 0 <= pos <= s.len() && has_at(s, pos, seq![',']) {
        match int_at(s, pos + 1) {
            None => (pos, seq![]),
            Some((e, v)) => {
                proof {
                    lemma_int_at_end(s, pos + 1);
                }
                let rest = more_ints(s, e);
                (rest.0, seq![v] + rest.1)
            },
        }
    } else {
        (pos, seq![])
    }
}

/// Signed 32-bit values separated by `,`, at least one.
pub open spec fn int_list_at(s: Seq<char>, pos: int) -> Option<(int, Seq<int>)> {
    match int_at(s, pos) {
        None => None,
        Some((e, v)) => {
            let rest = more_ints(s, e);
            Some((rest.0, seq![v] + rest.1))
        },
    }
}

/// Reads unsigned values up to `max` separated by `,` at `pos`.
pub fn parse_uint_list(s: &[char], pos: usize, max: u64) -> (r: Option<(usize, Vec<u64>)>)
    requires
        pos <= s@.len(),
    ensures
        match uint_list_at(s@, pos as int, max as nat) {
            None => r is None,
            Some((e, vs)) => r matches Some((e2, vs2)) && e2 as int == e && vs2@.map_values(
                |v: u64| v as nat,
            ) == vs,
        },
{
    let n = s.len();
    proof {
        lemma_digits_end(s@, pos as int);
    }
    let (mut cur, first) = match parse_uint(s, pos, max) {
        Some(v) => v,
        None => return None,
    };
    let mut out: Vec<u64> = Vec::new();
    out.push(first);
    proof {
        assert(out@.map_values(|v: u64| v as nat) =~= seq![first as nat]);
    }
    loop
        invariant
            n == s@.len(),
            cur <= n,
            uint_list_at(s@, pos as int, max as nat) matches Some((e, vs)) && e == more_uints(
                s@,
                cur as int,
                max as nat,
            ).0 && vs == out@.map_values(|v: u64| v as nat) + more_uints(
                s@,
                cur as int,
                max as nat,
            ).1,
        decreases n - cur,
    {
        if !char_at_is(s, cur, ',') {
            proof {
                assert(out@.map_values(|v: u64| v as nat) + Seq::<nat>::empty() =~= out@.map_values(
                    |v: u64| v as nat,
                ));
            }
            return Some((cur, out));
        }
        proof {
            lemma_digits_end(s@, cur + 1);
        }
        match parse_uint(s, cur + 1, max) {
            Some((e, v)) => {
                let ghost before = out@.map_values(|v: u64| v as nat);
                out.push(v);
                proof {
                    assert(out@.map_values(|v: u64| v as nat) =~= before.push(v as nat));
                    assert(more_uints(s@, cur as int, max as nat).1 =~= seq![v as nat] + more_uints(
                        s@,
                        e as int,
                        max as nat,
                    ).1);
                    assert(before + more_uints(s@, cur as int, max as nat).1 =~= out@.map_values(
                        |v: u64| v as nat,
                    ) + more_uints(s@, e as int, max as nat).1);
                }
                cur = e;
            },
            None => {
                proof {
                    assert(out@.map_values(|v: u64| v as nat) + Seq::<nat>::empty() =~= out@.map_values(
                        |v: u64| v as nat,
                    ));
                }
                return Some((cur, out));
            },
        }
    }
}

/// Reads signed 32-bit values separated by `,` at `pos`.
pub fn parse_int_list(s: &[char], pos: usize) -> (r: Option<(usize, Vec<i32>)>)
    requires
        pos <= s@.len(),
    ensures
        match int_list_at(s@, pos as int) {
            None => r is None,
            Some((e, vs)) => r matches Some((e2, vs2)) && e2 as int == e && vs2@.map_values(
                |v: i32| v as int,
            ) == vs,
        },
{
    let n = s.len();
    proof {
        lemma_int_at_end(s@, pos as int);
    }
    let (mut cur, first) = match parse_i32(s, pos) {
        Some(v) => v,
        None => return None,
    };
    let mut out: Vec<i32> = Vec::new();
    out.push(first);
    proof {
        assert(out@.map_values(|v: i32| v as int) =~= seq![first as int]);
    }
    loop
        invariant
            n == s@.len(),
            cur <= n,
            int_list_at(s@, pos as int) matches Some((e, vs)) && e == more_ints(s@, cur as int).0
                && vs == out@.map_values(|v: i32| v as int) + more_ints(s@, cur as int).1,
        decreases n - cur,
    {
        if !char_at_is(s, cur, ',') {
            proof {
                assert(out@.map_values(|v: i32| v as int) + Seq::<int>::empty() =~= out@.map_values(
                    |v: i32| v as int,
                ));
            }
            return Some((cur, out));
        }
        proof {
            lemma_int_at_end(s@, cur + 1);
        }
        match parse_i32(s, cur + 1) {
            Some((e, v)) => {
                let ghost before = out@.map_values(|v: i32| v as int);
                out.push(v);
                proof {
                    assert(out@.map_values(|v: i32| v as int) =~= before.push(v as int));
                    assert(more_ints(s@, cur as int).1 =~= seq![v as int] + more_ints(
                        s@,
                        e as int,
                    ).1);
                    assert(before + more_ints(s@, cur as int).1 =~= out@.map_values(
                        |v: i32| v as int,
                    ) + more_ints(s@, e as int).1);
                }
                cur = e;
            },
            None => {
                proof {
                    assert(out@.map_values(|v: i32| v as int) + Seq::<int>::empty() =~= out@.map_values(
                        |v: i32| v as int,
                    ));
                }
                return Some((cur, out));
            },
        }
    }
}

} // verus!
