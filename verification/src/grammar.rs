//! Lexical pieces shared by both path grammars: runs of digits, bounded
//! unsigned and signed integers, decimals, and literal tags.
use vstd::prelude::*;
use crate::text::{
    all_digits, char_is_digit, digits_value, has_at, is_digit, starts_at, str_chars, trim_end_char,
    trim_start_char,
};

verus! {

/// End of the run of ASCII digits that starts at `pos`.
pub open spec fn digits_end(s: Seq<char>, pos: int) -> int
    decreases s.len() - pos,
{
    if 0 <= pos < s.len() && is_digit(s[pos]) {
        digits_end(s, pos + 1)
    } else {
        pos
    }
}

pub proof fn lemma_digits_end(s: Seq<char>, pos: int)
    requires
        0 <= pos <= s.len(),
    ensures
        pos <= digits_end(s, pos) <= s.len(),
        all_digits(s.subrange(pos, digits_end(s, pos))),
        digits_end(s, pos) == s.len() || !is_digit(s[digits_end(s, pos)]),
    decreases s.len() - pos,
{
    if pos < s.len() && is_digit(s[pos]) {
        lemma_digits_end(s, pos + 1);
        let e = digits_end(s, pos);
        assert forall|i: int| 0 <= i < e - pos implies is_digit(
            #[trigger] s.subrange(pos, e)[i],
        ) by {
            if i > 0 {
                assert(s.subrange(pos, e)[i] == s.subrange(pos + 1, e)[i - 1]);
            }
        }
    }
}

pub proof fn lemma_digits_value_prefix(t: Seq<char>, k: int)
    requires
        0 <= k <= t.len(),
    ensures
        digits_value(t.take(k)) <= digits_value(t),
    decreases t.len(),
{
    if k < t.len() {
        lemma_digits_value_prefix(t.drop_last(), k);
        assert(t.drop_last().take(k) =~= t.take(k));
    } else {
        assert(t.take(k) =~= t);
    }
}

/// A run of digits from `pos` that stops at `e` ends at `e`.
pub proof fn lemma_digits_end_at(s: Seq<char>, pos: int, e: int)
    requires
        0 <= pos <= e <= s.len(),
        forall|i: int| pos <= i < e ==> is_digit(#[trigger] s[i]),
        e == s.len() || !is_digit(s[e]),
    ensures
        digits_end(s, pos) == e,
    decreases e - pos,
{
    if pos < e {
        lemma_digits_end_at(s, pos + 1, e);
    }
}

/// End of the digit run at `pos`.
pub fn scan_digits(s: &[char], pos: usize) -> (r: usize)
    requires
        pos <= s@.len(),
    ensures
        r == digits_end(s@, pos as int),
{
    let n = s.len();
    let mut i = pos;
    while i < n && char_is_digit(s[i])
        invariant
            n == s@.len(),
            pos <= i <= n,
            digits_end(s@, pos as int) == digits_end(s@, i as int),
        decreases n - i,
    {
        i = i + 1;
    }
    i
}

/// An unsigned integer of at most `max` at `pos`: its end and value. Fails on
/// no digit and on a value above `max`.
pub open spec fn uint_at(s: Seq<char>, pos: int, max: nat) -> Option<(int, nat)> {
    let e = digits_end(s, pos);
    if e == pos {
        None
    } else {
        let v = digits_value(s.subrange(pos, e));
        if v > max {
            None
        } else {
            Some((e, v))
        }
    }
}

/// An unsigned integer of at most `max` at `pos`.
pub fn parse_uint(s: &[char], pos: usize, max: u64) -> (r: Option<(usize, u64)>)
    requires
        pos <= s@.len(),
    ensures
        match uint_at(s@, pos as int, max as nat) {
            None => r is None,
            Some((e, v)) => r == Some((e as usize, v as u64)),
        },
{
    let e = scan_digits(s, pos);
    proof {
        lemma_digits_end(s@, pos as int);
    }
    if e == pos {
        return None;
    }
    let ghost t = s@.subrange(pos as int, e as int);
    let mut acc: u64 = 0;
    let mut i = pos;
    while i < e
        invariant
            pos <= i <= e <= s@.len(),
            e == digits_end(s@, pos as int),
            t == s@.subrange(pos as int, e as int),
            all_digits(t),
            acc as nat == digits_value(s@.subrange(pos as int, i as int)),
            acc <= max,
        decreases e - i,
    {
        let c = s[i];
        proof {
            assert(t[i - pos] == c);
        }
        let d: u64 = (c as u32 - 48) as u64;
        let next: u128 = acc as u128 * 10 + d as u128;
        proof {
            assert(s@.subrange(pos as int, i + 1).drop_last() =~= s@.subrange(pos as int, i as int));
            assert(next == digits_value(s@.subrange(pos as int, i + 1)));
        }
        if next > max as u128 {
            proof {
                assert(t.take(i + 1 - pos) =~= s@.subrange(pos as int, i + 1));
                lemma_digits_value_prefix(t, i + 1 - pos);
            }
            return None;
        }
        acc = next as u64;
        i = i + 1;
    }
    Some((e, acc))
}

/// A signed 32-bit integer at `pos`: an optional `-` or `+`, then digits; fails
/// when no digit follows or the value leaves the range.
pub open spec fn int_at(s: Seq<char>, pos: int) -> Option<(int, int)> {
    let neg = has_at(s, pos, seq!['-']);
    let plus = has_at(s, pos, seq!['+']);
    let p = if neg || plus {
        pos + 1
    } else {
        pos
    };
    match uint_at(
        s,
        p,
        if neg {
            2147483648
        } else {
            2147483647
        },
    ) {
        None => None,
        Some((e, v)) => Some(
            (
                e,
                if neg {
                    -v
                } else {
                    v as int
                },
            ),
        ),
    }
}

/// Whether the character at `pos` is `c`.
pub fn char_at_is(s: &[char], pos: usize, c: char) -> (r: bool)
    ensures
        r == has_at(s@, pos as int, seq![c]),
{
    if pos < s.len() && s[pos] == c {
        proof {
            assert(s@.subrange(pos as int, pos + 1) =~= seq![c]);
        }
        true
    } else {
        proof {
            if pos < s@.len() {
                assert(s@.subrange(pos as int, pos + 1)[0] == s@[pos as int]);
            }
        }
        false
    }
}

/// A signed 32-bit integer at `pos`.
pub fn parse_i32(s: &[char], pos: usize) -> (r: Option<(usize, i32)>)
    requires
        pos <= s@.len(),
    ensures
        match int_at(s@, pos as int) {
            None => r is None,
            Some((e, v)) => r == Some((e as usize, v as i32)),
        },
{
    let n = s.len();
    let neg = char_at_is(s, pos, '-');
    let plus = char_at_is(s, pos, '+');
    let p = if neg || plus {
        pos + 1
    } else {
        pos
    };
    let max: u64 = if neg {
        2147483648
    } else {
        2147483647
    };
    match parse_uint(s, p, max) {
        None => None,
        Some((e, v)) => {
            if neg {
                if v == 2147483648 {
                    Some((e, i32::MIN))
                } else {
                    Some((e, -(v as i32)))
                }
            } else {
                Some((e, v as i32))
            }
        },
    }
}

/// The canonical decimal text of a number written with an optional sign, an
/// integer part and a fractional part: no leading zeros in the integer part,
/// no trailing zeros in the fraction, no dot without a fraction and no sign on zero.
pub open spec fn decimal_text(neg: bool, int_digits: Seq<char>, frac_digits: Seq<char>) -> Seq<
    char,
> {
    let i = trim_start_char(int_digits, '0');
    let f = trim_end_char(frac_digits, '0');
    let zero = i.len() == 0 && f.len() == 0;
    (if neg && !zero {
        seq!['-']
    } else {
        seq![]
    }) + (if i.len() == 0 {
        seq!['0']
    } else {
        i
    }) + (if f.len() > 0 {
        seq!['.'] + f
    } else {
        seq![]
    })
}

/// A decimal at `pos`: an optional `-`, digits, then optionally `.` and digits.
/// Yields its end and its canonical text.
pub open spec fn decimal_at(s: Seq<char>, pos: int) -> Option<(int, Seq<char>)> {
    let neg = has_at(s, pos, seq!['-']);
    let p = if neg {
        pos + 1
    } else {
        pos
    };
    let e1 = digits_end(s, p);
    if e1 == p {
        None
    } else {
        let e2 = digits_end(s, e1 + 1);
        if has_at(s, e1, seq!['.']) && e2 > e1 + 1 {
            Some((e2, decimal_text(neg, s.subrange(p, e1), s.subrange(e1 + 1, e2))))
        } else {
            Some((e1, decimal_text(neg, s.subrange(p, e1), seq![])))
        }
    }
}

pub proof fn lemma_decimal_at_end(s: Seq<char>, pos: int)
    requires
        0 <= pos <= s.len(),
    ensures
        decimal_at(s, pos) matches Some((e, _)) ==> pos < e <= s.len(),
{
    let neg = has_at(s, pos, seq!['-']);
    let p = if neg {
        pos + 1
    } else {
        pos
    };
    lemma_digits_end(s, p);
    let e1 = digits_end(s, p);
    if e1 > p && has_at(s, e1, seq!['.']) {
        lemma_digits_end(s, e1 + 1);
    }
}

proof fn lemma_trim_start(s: Seq<char>, c: char)
    ensures
        trim_start_char(s, c).len() == 0 || trim_start_char(s, c)[0] != c,
        trim_start_char(trim_start_char(s, c), c) == trim_start_char(s, c),
        trim_start_char(s, c).len() <= s.len(),
        trim_start_char(s, c) == s.subrange(s.len() - trim_start_char(s, c).len(), s.len() as int),
    decreases s.len(),
{
    if s.len() > 0 && s[0] == c {
        lemma_trim_start(s.drop_first(), c);
        let t = trim_start_char(s.drop_first(), c);
        assert(s.drop_first().subrange(s.drop_first().len() - t.len(), s.drop_first().len() as int)
            =~= s.subrange(s.len() - t.len(), s.len() as int));
    } else {
        assert(s.subrange(0, s.len() as int) =~= s);
    }
}

proof fn lemma_trim_end(s: Seq<char>, c: char)
    ensures
        trim_end_char(s, c).len() == 0 || trim_end_char(s, c).last() != c,
        trim_end_char(trim_end_char(s, c), c) == trim_end_char(s, c),
        trim_end_char(s, c).len() <= s.len(),
        trim_end_char(s, c) == s.subrange(0, trim_end_char(s, c).len() as int),
    decreases s.len(),
{
    if s.len() > 0 && s.last() == c {
        lemma_trim_end(s.drop_last(), c);
        let t = trim_end_char(s.drop_last(), c);
        assert(s.drop_last().subrange(0, t.len() as int) =~= s.subrange(0, t.len() as int));
    } else {
        assert(s.subrange(0, s.len() as int) =~= s);
    }
}

proof fn lemma_all_digits_subrange(s: Seq<char>, lo: int, hi: int)
    requires
        all_digits(s),
        0 <= lo <= hi <= s.len(),
    ensures
        all_digits(s.subrange(lo, hi)),
{
    assert forall|i: int| 0 <= i < hi - lo implies is_digit(#[trigger] s.subrange(lo, hi)[i]) by {
        assert(s.subrange(lo, hi)[i] == s[lo + i]);
    }
}

/// The canonical text of a decimal reads back, whole, as itself.
proof fn lemma_decimal_text_reads_back(neg: bool, int_digits: Seq<char>, frac_digits: Seq<char>)
    requires
        all_digits(int_digits),
        all_digits(frac_digits),
    ensures
        decimal_at(decimal_text(neg, int_digits, frac_digits), 0) == Some(
            (
                decimal_text(neg, int_digits, frac_digits).len() as int,
                decimal_text(neg, int_digits, frac_digits),
            ),
        ),
{
    let i = trim_start_char(int_digits, '0');
    let f = trim_end_char(frac_digits, '0');
    lemma_trim_start(int_digits, '0');
    lemma_trim_end(frac_digits, '0');
    lemma_all_digits_subrange(int_digits, int_digits.len() - i.len(), int_digits.len() as int);
    lemma_all_digits_subrange(frac_digits, 0, f.len() as int);
    let zero = i.len() == 0 && f.len() == 0;
    let sign: Seq<char> = if neg && !zero {
        seq!['-']
    } else {
        seq![]
    };
    let ip: Seq<char> = if i.len() == 0 {
        seq!['0']
    } else {
        i
    };
    let fp: Seq<char> = if f.len() > 0 {
        seq!['.'] + f
    } else {
        seq![]
    };
    let t = decimal_text(neg, int_digits, frac_digits);
    assert(t == sign + ip + fp);
    assert(all_digits(ip));
    assert(ip.len() >= 1);
    let p = sign.len() as int;
    let e1 = p + ip.len();
    assert(has_at(t, 0, seq!['-']) == (neg && !zero)) by {
        if !(neg && !zero) {
            assert(t[0] == ip[0]);
            assert(is_digit(ip[0]));
            assert(t.subrange(0, 1)[0] == t[0]);
        } else {
            assert(t[0] == '-');
            assert(t.subrange(0, 1) =~= seq!['-']);
        }
    }
    assert(t.subrange(p, e1) =~= ip);
    assert forall|k: int| p <= k < e1 implies is_digit(#[trigger] t[k]) by {
        assert(t[k] == ip[k - p]);
    }
    if f.len() > 0 {
        assert(t[e1] == '.');
        lemma_digits_end_at(t, p, e1);
        assert forall|k: int| e1 + 1 <= k < t.len() implies is_digit(#[trigger] t[k]) by {
            assert(t[k] == f[k - e1 - 1]);
        }
        lemma_digits_end_at(t, e1 + 1, t.len() as int);
        assert(t.subrange(e1, e1 + 1) =~= seq!['.']);
        assert(t.subrange(e1 + 1, t.len() as int) =~= f);
        lemma_trim_end(f, '0');
    } else {
        assert(t.len() == e1);
        lemma_digits_end_at(t, p, e1);
    }
    if i.len() == 0 {
        assert(trim_start_char(seq!['0'], '0') == trim_start_char(seq!['0'].drop_first(), '0'));
        assert(seq!['0'].drop_first() =~= Seq::<char>::empty());
    } else {
        lemma_trim_start(i, '0');
    }
    assert(trim_end_char(Seq::<char>::empty(), '0') == Seq::<char>::empty());
}

/// A decimal's canonical text reads back as the same number: canonical texts
/// are their own canonical form.
pub proof fn law_decimal_canonical(s: Seq<char>, pos: int)
    requires
        0 <= pos <= s.len(),
        decimal_at(s, pos) is Some,
    ensures
        decimal_at(decimal_at(s, pos).unwrap().1, 0) == Some(
            (decimal_at(s, pos).unwrap().1.len() as int, decimal_at(s, pos).unwrap().1),
        ),
{
    let neg = has_at(s, pos, seq!['-']);
    let p = if neg {
        pos + 1
    } else {
        pos
    };
    lemma_digits_end(s, p);
    let e1 = digits_end(s, p);
    if e1 + 1 <= s.len() {
        lemma_digits_end(s, e1 + 1);
    }
    let e2 = digits_end(s, e1 + 1);
    if has_at(s, e1, seq!['.']) && e2 > e1 + 1 {
        lemma_decimal_text_reads_back(neg, s.subrange(p, e1), s.subrange(e1 + 1, e2));
    } else {
        assert(all_digits(Seq::<char>::empty()));
        lemma_decimal_text_reads_back(neg, s.subrange(p, e1), seq![]);
    }
}

/// Index of the first character of `s[lo..hi]` that is not `c`.
pub fn skip_leading(s: &[char], lo: usize, hi: usize, c: char) -> (r: usize)
    requires
        lo <= hi <= s@.len(),
    ensures
        lo <= r <= hi,
        trim_start_char(s@.subrange(lo as int, hi as int), c) == s@.subrange(r as int, hi as int),
{
    let mut i = lo;
    while i < hi && s[i] == c
        invariant
            lo <= i <= hi <= s@.len(),
            trim_start_char(s@.subrange(lo as int, hi as int), c) == trim_start_char(
                s@.subrange(i as int, hi as int),
                c,
            ),
        decreases hi - i,
    {
        proof {
            assert(s@.subrange(i as int, hi as int).drop_first() =~= s@.subrange(i + 1, hi as int));
        }
        i = i + 1;
    }
    proof {
        let t = s@.subrange(i as int, hi as int);
        if t.len() > 0 {
            assert(t[0] == s@[i as int]);
        }
    }
    i
}

/// End of `s[lo..hi]` once its trailing characters equal to `c` are dropped.
pub fn skip_trailing(s: &[char], lo: usize, hi: usize, c: char) -> (r: usize)
    requires
        lo <= hi <= s@.len(),
    ensures
        lo <= r <= hi,
        trim_end_char(s@.subrange(lo as int, hi as int), c) == s@.subrange(lo as int, r as int),
{
    let mut j = hi;
    while j > lo && s[j - 1] == c
        invariant
            lo <= j <= hi <= s@.len(),
            trim_end_char(s@.subrange(lo as int, hi as int), c) == trim_end_char(
                s@.subrange(lo as int, j as int),
                c,
            ),
        decreases j - lo,
    {
        proof {
            assert(s@.subrange(lo as int, j as int).drop_last() =~= s@.subrange(lo as int, j - 1));
        }
        j = j - 1;
    }
    proof {
        let t = s@.subrange(lo as int, j as int);
        if t.len() > 0 {
            assert(t.last() == s@[j - 1]);
        }
    }
    j
}

/// Appends `s[lo..hi]`.
pub fn push_range(out: &mut Vec<char>, s: &[char], lo: usize, hi: usize)
    requires
        lo <= hi <= s@.len(),
    ensures
        final(out)@ == old(out)@ + s@.subrange(lo as int, hi as int),
{
    let ghost start = out@;
    let mut i = lo;
    while i < hi
        invariant
            lo <= i <= hi <= s@.len(),
            out@ == start + s@.subrange(lo as int, i as int),
        decreases hi - i,
    {
        out.push(s[i]);
        proof {
            assert(out@ =~= start + s@.subrange(lo as int, i + 1));
        }
        i = i + 1;
    }
}

/// The canonical decimal text of `[-]s[a..b].s[c..d]`.
pub fn decimal_chars(neg: bool, s: &[char], a: usize, b: usize, c: usize, d: usize) -> (r: Vec<
    char,
>)
    requires
        a <= b <= s@.len(),
        c <= d <= s@.len(),
    ensures
        r@ == decimal_text(neg, s@.subrange(a as int, b as int), s@.subrange(c as int, d as int)),
{
    let i0 = skip_leading(s, a, b, '0');
    let f1 = skip_trailing(s, c, d, '0');
    let zero = i0 == b && f1 == c;
    let mut out: Vec<char> = Vec::new();
    if neg && !zero {
        out.push('-');
    }
    if i0 == b {
        out.push('0');
    } else {
        push_range(&mut out, s, i0, b);
    }
    if f1 > c {
        out.push('.');
        push_range(&mut out, s, c, f1);
    }
    proof {
        let ghost i = trim_start_char(s@.subrange(a as int, b as int), '0');
        let ghost f = trim_end_char(s@.subrange(c as int, d as int), '0');
        assert(i.len() == b - i0);
        assert(f.len() == f1 - c);
        assert(out@ =~= decimal_text(
            neg,
            s@.subrange(a as int, b as int),
            s@.subrange(c as int, d as int),
        ));
    }
    out
}

/// A decimal at `pos`, with its end and canonical text.
pub fn parse_decimal(s: &[char], pos: usize) -> (r: Option<(usize, Vec<char>)>)
    requires
        pos <= s@.len(),
    ensures
        match decimal_at(s@, pos as int) {
            None => r is None,
            Some((e, t)) => r matches Some((e2, t2)) && e2 == e && t2@ == t,
        },
{
    let n = s.len();
    let neg = char_at_is(s, pos, '-');
    let p = if neg {
        pos + 1
    } else {
        pos
    };
    let e1 = scan_digits(s, p);
    proof {
        lemma_digits_end(s@, p as int);
    }
    if e1 == p {
        return None;
    }
    let dot = char_at_is(s, e1, '.');
    if dot {
        let e2 = scan_digits(s, e1 + 1);
        if e2 > e1 + 1 {
            proof {
                lemma_digits_end(s@, e1 + 1);
            }
            let t = decimal_chars(neg, s, p, e1, e1 + 1, e2);
            return Some((e2, t));
        }
    }
    let t = decimal_chars(neg, s, p, e1, 0, 0);
    proof {
        assert(s@.subrange(0, 0) =~= seq![]);
    }
    Some((e1, t))
}

/// The end of the literal `lit` if it stands at `pos`.
pub fn tag(s: &[char], pos: usize, lit: &str) -> (r: Option<usize>)
    requires
        pos <= s@.len(),
    ensures
        has_at(s@, pos as int, lit@) ==> r == Some((pos + lit@.len()) as usize),
        !has_at(s@, pos as int, lit@) ==> r is None,
{
    let n = s.len();
    let l = str_chars(lit);
    if starts_at(s, pos, &l) {
        Some(pos + l.len())
    } else {
        None
    }
}

/// Whether the literal `lit` stands at `pos`.
pub fn tag_at(s: &[char], pos: usize, lit: &str) -> (r: bool)
    requires
        pos <= s@.len(),
    ensures
        r == has_at(s@, pos as int, lit@),
{
    let l = str_chars(lit);
    starts_at(s, pos, &l)
}

} // verus!
