//! Storage keys: strip line breaks and surrounding slashes, then percent-escape
//! every byte that the chosen safe-character policy does not keep as it is.
use std::collections::HashSet;
use vstd::prelude::*;
use vstd::utf8::{encode_scalar, encode_utf8, has_width_1_encoding};
use crate::text::{is_ascii_alnum, str_chars, string_of, trim_end_char, trim_start_char};

verus! {

broadcast use vstd::std_specs::hash::group_hash_axioms;


/// Which bytes a key keeps as they are.
#[derive(Debug)]
pub enum SafeCharsType {
    /// ASCII letters and digits and `/ - _ . ~`.
    Default,
    /// The default set plus the given bytes.
    Custom(HashSet<u8>),
    /// Every byte is kept.
    Noop,
}

pub open spec fn is_ascii_alnum_byte(c: u8) -> bool {
    is_ascii_alnum(c as char)
}

pub open spec fn default_safe(c: u8) -> bool {
    is_ascii_alnum_byte(c) || c == 0x2f || c == 0x2d || c == 0x5f || c == 0x2e || c == 0x7e
}

impl SafeCharsType {
    /// Whether the policy escapes byte `c`.
    pub open spec fn escapes(&self, c: u8) -> bool {
        match self {
            SafeCharsType::Default => !default_safe(c),
            SafeCharsType::Custom(set) => !(default_safe(c) || set@.contains(c)),
            SafeCharsType::Noop => false,
        }
    }

    /// Whether the policy escapes byte `c`.
    pub fn should_escape(&self, c: u8) -> (r: bool)
        ensures
            r == self.escapes(c),
    {
        let safe = (0x30u8 <= c && c <= 0x39u8) || (0x61u8 <= c && c <= 0x7au8) || (0x41u8 <= c && c <= 0x5au8)
            || c == 0x2fu8 || c == 0x2du8 || c == 0x5fu8 || c == 0x2eu8 || c == 0x7eu8;
        proof {
            assert(safe == default_safe(c));
        }
        match self {
            SafeCharsType::Default => !safe,
            SafeCharsType::Custom(safe_chars) => !(safe || safe_chars.contains(&c)),
            SafeCharsType::Noop => false,
        }
    }
}

/// The policy that a configuration string names: `--` keeps every byte, the
/// empty string is the default set, any other string adds its bytes to it.
pub open spec fn safe_chars_named(s: Seq<char>, r: SafeCharsType) -> bool {
    if s == seq!['-', '-'] {
        r is Noop
    } else if s.len() == 0 {
        r is Default
    } else {
        &&& r is Custom
        &&& forall|b: u8| #[trigger] r->Custom_0@.contains(b) <==> encode_utf8(s).contains(b)
    }
}

/// The policy that a configuration string names.
pub fn new_safe_chars(safechars: &str) -> (r: SafeCharsType)
    ensures
        safe_chars_named(safechars@, r),
{
    let cs = str_chars(safechars);
    if cs.len() == 2 && cs[0] == '-' && cs[1] == '-' {
        proof {
            assert(safechars@ =~= seq!['-', '-']);
        }
        SafeCharsType::Noop
    } else if cs.len() == 0 {
        SafeCharsType::Default
    } else {
        let bytes = safechars.as_bytes();
        let mut set: HashSet<u8> = HashSet::new();
        let mut i: usize = 0;
        while i < bytes.len()
            invariant
                i <= bytes@.len(),
                bytes@ == encode_utf8(safechars@),
                forall|b: u8| #[trigger] set@.contains(b) <==> bytes@.take(i as int).contains(b),
            decreases bytes@.len() - i,
        {
            set.insert(bytes[i]);
            proof {
                assert forall|b: u8| #[trigger] set@.contains(b) <==> bytes@.take(
                    i as int + 1,
                ).contains(b) by {
                    let t = bytes@.take(i as int + 1);
                    if bytes@.take(i as int).contains(b) {
                        let j = choose|j: int| 0 <= j < i && bytes@.take(i as int)[j] == b;
                        assert(t[j] == b);
                    }
                    if t.contains(b) {
                        let j = choose|j: int| 0 <= j < t.len() && t[j] == b;
                        if j < i {
                            assert(bytes@.take(i as int)[j] == b);
                        }
                    }
                    assert(t[i as int] == bytes@[i as int]);
                }
            }
            i = i + 1;
        }
        proof {
            assert(bytes@.take(bytes@.len() as int) =~= bytes@);
            assert(safechars@ != seq!['-', '-']) by {
                if safechars@ == seq!['-', '-'] {
                    assert(cs@ =~= seq!['-', '-']);
                }
            }
        }
        SafeCharsType::Custom(set)
    }
}

/// Upper-case hexadecimal digit for a value below sixteen.
pub open spec fn upper_hex_digit(v: u8) -> char {
    if v < 10 {
        ((v + 48) as u32) as char
    } else {
        ((v + 55) as u32) as char
    }
}

/// What one byte of a key becomes: itself as a character, `+` for an escaped
/// space, or `%` and two upper-case hex digits.
pub open spec fn escape_byte(c: u8, escapes: bool) -> Seq<char> {
    if escapes {
        if c == 0x20 {
            seq!['+']
        } else {
            seq!['%', upper_hex_digit(c >> 4), upper_hex_digit(c & 15)]
        }
    } else {
        seq![(c as u32) as char]
    }
}

pub open spec fn escape_bytes(bytes: Seq<u8>, policy: SafeCharsType) -> Seq<char>
    decreases bytes.len(),
{
    if bytes.len() == 0 {
        seq![]
    } else {
        escape_bytes(bytes.drop_last(), policy) + escape_byte(
            bytes.last(),
            policy.escapes(bytes.last()),
        )
    }
}

fn hex_digit_upper(v: u8) -> (r: char)
    requires
        v < 16,
    ensures
        r == upper_hex_digit(v),
{
    if v < 10 {
        ((v + 48) as u8) as char
    } else {
        ((v + 55) as u8) as char
    }
}

/// Escapes the bytes of `s` under the policy.
pub fn escape(s: &str, safe_chars: &SafeCharsType) -> (r: String)
    ensures
        r@ == escape_bytes(encode_utf8(s@), *safe_chars),
{
    let bytes = s.as_bytes();
    let mut out: Vec<char> = Vec::new();
    let mut i: usize = 0;
    while i < bytes.len()
        invariant
            i <= bytes@.len(),
            out@ == escape_bytes(bytes@.take(i as int), *safe_chars),
        decreases bytes@.len() - i,
    {
        let c = bytes[i];
        let ghost before = out@;
        if safe_chars.should_escape(c) {
            if c == 0x20u8 {
                out.push('+');
            } else {
                assert(c >> 4 < 16 && c & 15 < 16) by (bit_vector);
                out.push('%');
                out.push(hex_digit_upper(c >> 4));
                out.push(hex_digit_upper(c & 15));
            }
        } else {
            out.push(c as char);
        }
        proof {
            let t = bytes@.take(i as int + 1);
            assert(t.drop_last() =~= bytes@.take(i as int));
            assert(t.last() == c);
            assert(out@ =~= before + escape_byte(c, safe_chars.escapes(c)));
        }
        i = i + 1;
    }
    proof {
        assert(bytes@.take(bytes@.len() as int) =~= bytes@);
    }
    string_of(&out)
}

/// Line breaks that a key loses: CR, LF, VT, FF, NEL, LS and PS.
pub open spec fn is_line_break(c: char) -> bool {
    c == '\r' || c == '\n' || c == '\u{000B}' || c == '\u{000C}' || c == '\u{0085}' || c
        == '\u{2028}' || c == '\u{2029}'
}

pub open spec fn remove_line_breaks(s: Seq<char>) -> Seq<char>
    decreases s.len(),
{
    if s.len() == 0 {
        seq![]
    } else if is_line_break(s.last()) {
        remove_line_breaks(s.drop_last())
    } else {
        remove_line_breaks(s.drop_last()).push(s.last())
    }
}

/// A key with its line breaks removed and its leading and trailing slashes trimmed.
pub open spec fn cleaned_key(key: Seq<char>) -> Seq<char> {
    trim_end_char(trim_start_char(remove_line_breaks(key), '/'), '/')
}

/// The storage form of a key under a policy.
pub open spec fn normalized_key(key: Seq<char>, policy: SafeCharsType) -> Seq<char> {
    escape_bytes(encode_utf8(cleaned_key(key)), policy)
}

/// Characters that need no quoting in a URL path: ASCII letters and digits,
/// `/ - _ . ~`, and the `%` and `+` of escapes.
pub open spec fn url_safe_char(ch: char) -> bool {
    is_ascii_alnum(ch) || ch == '/' || ch == '-' || ch == '_' || ch == '.' || ch == '~' || ch == '%'
        || ch == '+'
}

proof fn lemma_upper_hex_digit_safe(v: u8)
    requires
        v < 16,
    ensures
        is_ascii_alnum(upper_hex_digit(v)),
{
}

proof fn lemma_escape_bytes_default_safe(bytes: Seq<u8>)
    ensures
        forall|i: int|
            0 <= i < escape_bytes(bytes, SafeCharsType::Default).len() ==> url_safe_char(
                #[trigger] escape_bytes(bytes, SafeCharsType::Default)[i],
            ),
    decreases bytes.len(),
{
    if bytes.len() > 0 {
        let before = escape_bytes(bytes.drop_last(), SafeCharsType::Default);
        lemma_escape_bytes_default_safe(bytes.drop_last());
        let c = bytes.last();
        let tail = escape_byte(c, SafeCharsType::Default.escapes(c));
        let hi = c >> 4;
        let lo = c & 15;
        assert(hi < 16 && lo < 16) by (bit_vector)
            requires
                hi == c >> 4,
                lo == c & 15,
        ;
        lemma_upper_hex_digit_safe(hi);
        lemma_upper_hex_digit_safe(lo);
        assert((c as u32) as char == c as char);
        assert forall|i: int| 0 <= i < tail.len() implies url_safe_char(#[trigger] tail[i]) by {}
        let all = escape_bytes(bytes, SafeCharsType::Default);
        assert(all == before + tail);
        assert forall|i: int| 0 <= i < all.len() implies url_safe_char(#[trigger] all[i]) by {
            if i < before.len() {
                assert(all[i] == before[i]);
            } else {
                assert(all[i] == tail[i - before.len()]);
            }
        }
    }
}

/// Under the default policy a stored key needs no quoting in a URL: every
/// character is an ASCII letter or digit, one of `/ - _ . ~`, or part of an
/// escape (`%`, `+`).
pub proof fn law_default_keys_are_url_safe(key: Seq<char>)
    ensures
        forall|i: int|
            0 <= i < normalized_key(key, SafeCharsType::Default).len() ==> url_safe_char(
                #[trigger] normalized_key(key, SafeCharsType::Default)[i],
            ),
{
    lemma_escape_bytes_default_safe(encode_utf8(cleaned_key(key)));
}

/// An upper-case hexadecimal digit.
pub open spec fn is_upper_hex(c: char) -> bool {
    ('0' <= c && c <= '9') || ('A' <= c && c <= 'F')
}

/// The value of an upper-case hexadecimal digit.
pub open spec fn upper_hex_value(c: char) -> int {
    if c <= '9' {
        (c as u32) - 48
    } else {
        (c as u32) - 55
    }
}

/// Percent-decoding of a key, read from its end: `%` and two hex digits are
/// one byte, `+` is a space, and any other character is its own byte.
pub open spec fn url_decode(s: Seq<char>) -> Seq<u8>
    decreases s.len(),
{
    if s.len() == 0 {
        seq![]
    } else if s.len() >= 3 && s[s.len() - 3] == '%' {
        url_decode(s.subrange(0, s.len() - 3)).push(
            (upper_hex_value(s[s.len() - 2]) * 16 + upper_hex_value(s[s.len() - 1])) as u8,
        )
    } else if s.last() == '+' {
        url_decode(s.drop_last()).push(0x20u8)
    } else {
        url_decode(s.drop_last()).push((s.last() as u32) as u8)
    }
}

/// Every `%` of a text begins an escape: two upper-case hex digits follow it.
pub open spec fn escapes_well_formed(s: Seq<char>) -> bool {
    forall|i: int|
        0 <= i < s.len() && #[trigger] s[i] == '%' ==> i + 2 < s.len() && is_upper_hex(s[i + 1])
            && is_upper_hex(s[i + 2])
}

proof fn lemma_upper_hex_digit(v: u8)
    requires
        v < 16,
    ensures
        is_upper_hex(upper_hex_digit(v)),
        upper_hex_value(upper_hex_digit(v)) == v,
{
}

proof fn lemma_escape_bytes_default_shape(bytes: Seq<u8>)
    ensures
        escapes_well_formed(escape_bytes(bytes, SafeCharsType::Default)),
        url_decode(escape_bytes(bytes, SafeCharsType::Default)) == bytes,
    decreases bytes.len(),
{
    if bytes.len() > 0 {
        let before = escape_bytes(bytes.drop_last(), SafeCharsType::Default);
        lemma_escape_bytes_default_shape(bytes.drop_last());
        let c = bytes.last();
        let esc = SafeCharsType::Default.escapes(c);
        let tail = escape_byte(c, esc);
        let hi = c >> 4;
        let lo = c & 15;
        assert(hi < 16 && lo < 16 && hi * 16 + lo == c) by (bit_vector)
            requires
                hi == c >> 4,
                lo == c & 15,
        ;
        lemma_upper_hex_digit(hi);
        lemma_upper_hex_digit(lo);
        let all = escape_bytes(bytes, SafeCharsType::Default);
        assert(all == before + tail);
        assert(bytes.drop_last().push(c) =~= bytes);
        assert forall|i: int|
            0 <= i < all.len() && #[trigger] all[i] == '%' implies i + 2 < all.len() && is_upper_hex(
            all[i + 1],
        ) && is_upper_hex(all[i + 2]) by {
            if i < before.len() {
                assert(all[i] == before[i]);
                assert(before[i] == '%');
                assert(all[i + 1] == before[i + 1]);
                assert(all[i + 2] == before[i + 2]);
            } else {
                assert(all[i] == tail[i - before.len()]);
            }
        }
        if esc && c != 0x20 {
            assert(all.subrange(0, all.len() - 3) =~= before);
            assert(all[all.len() - 3] == '%');
        } else {
            assert(tail.len() == 1);
            assert(all.drop_last() =~= before);
            if all.len() >= 3 {
                assert(all[all.len() - 3] == before[before.len() - 2]);
                if before[before.len() - 2] == '%' {
                    assert(before.len() - 2 + 2 < before.len());
                }
            }
            if !esc {
                assert(default_safe(c));
                assert((c as u32) as char != '+' && (c as u32) as char != '%');
            }
        }
    }
}

/// Under the default policy a stored key can be decoded back: every `%` starts
/// an escape of two upper-case hex digits, and percent-decoding the key (with
/// `+` for a space) gives the UTF-8 bytes of the key with its line breaks
/// removed and its surrounding slashes trimmed.
pub proof fn law_default_keys_decode(key: Seq<char>)
    ensures
        escapes_well_formed(normalized_key(key, SafeCharsType::Default)),
        url_decode(normalized_key(key, SafeCharsType::Default)) == encode_utf8(cleaned_key(key)),
{
    lemma_escape_bytes_default_shape(encode_utf8(cleaned_key(key)));
}

proof fn lemma_trim_start_char(s: Seq<char>, c: char)
    ensures
        trim_start_char(s, c).len() > 0 ==> trim_start_char(s, c)[0] != c,
    decreases s.len(),
{
    if s.len() > 0 && s[0] == c {
        lemma_trim_start_char(s.drop_first(), c);
    }
}

proof fn lemma_trim_end_char(s: Seq<char>, c: char)
    ensures
        trim_end_char(s, c).len() <= s.len(),
        trim_end_char(s, c) =~= s.subrange(0, trim_end_char(s, c).len() as int),
        trim_end_char(s, c).len() > 0 ==> trim_end_char(s, c).last() != c,
    decreases s.len(),
{
    if s.len() > 0 && s.last() == c {
        lemma_trim_end_char(s.drop_last(), c);
        let t = trim_end_char(s.drop_last(), c);
        assert(t =~= s.subrange(0, t.len() as int));
    } else {
        assert(s =~= s.subrange(0, s.len() as int));
    }
}

proof fn lemma_cleaned_key_ends(key: Seq<char>)
    ensures
        cleaned_key(key).len() > 0 ==> cleaned_key(key)[0] != '/' && cleaned_key(key).last() != '/',
{
    let t = trim_start_char(remove_line_breaks(key), '/');
    lemma_trim_start_char(remove_line_breaks(key), '/');
    lemma_trim_end_char(t, '/');
    let u = trim_end_char(t, '/');
    if u.len() > 0 {
        assert(u[0] == t[0]);
    }
}

proof fn lemma_encode_scalar_slash(c: char)
    ensures
        encode_scalar(c as u32).len() >= 1,
        (encode_scalar(c as u32)[0] == 0x2f) == (c == '/'),
        (encode_scalar(c as u32).last() == 0x2f) == (c == '/'),
{
    let v = c as u32;
    vstd::utf8::char_u32_cast(c, v);
    if has_width_1_encoding(v) {
        assert(v <= 0x7f ==> (v & 0x7f) as u8 == v) by (bit_vector);
    } else {
        let lead2 = (v >> 6) & 0x1F;
        let lead3 = (v >> 12) & 0x0F;
        let lead4 = (v >> 18) & 0x7;
        let cont = v & 0x3F;
        assert((0xC0u8 | lead2 as u8) != 0x2f && (0xE0u8 | lead3 as u8) != 0x2f && (0xF0u8
            | lead4 as u8) != 0x2f && (0x80u8 | cont as u8) != 0x2f) by (bit_vector);
        assert(v != 0x2f);
    }
}

proof fn lemma_encode_utf8_push(s: Seq<char>, c: char)
    ensures
        encode_utf8(s.push(c)) == encode_utf8(s) + encode_scalar(c as u32),
    decreases s.len(),
{
    if s.len() == 0 {
        assert(s.push(c).drop_first() =~= Seq::<char>::empty());
        assert(encode_utf8(Seq::<char>::empty()) == Seq::<u8>::empty());
        assert(encode_utf8(s.push(c)) =~= encode_scalar(c as u32));
    } else {
        lemma_encode_utf8_push(s.drop_first(), c);
        assert(s.push(c).drop_first() =~= s.drop_first().push(c));
        assert(s.push(c)[0] == s[0]);
        let a = encode_scalar(s[0] as u32);
        let b = encode_utf8(s.drop_first());
        let d = encode_scalar(c as u32);
        assert(a + (b + d) =~= (a + b) + d);
    }
}

proof fn lemma_encode_utf8_ends(s: Seq<char>)
    ensures
        s.len() > 0 ==> encode_utf8(s).len() > 0 && (encode_utf8(s)[0] == 0x2f) == (s[0] == '/')
            && (encode_utf8(s).last() == 0x2f) == (s.last() == '/'),
{
    if s.len() > 0 {
        lemma_encode_scalar_slash(s[0]);
        lemma_encode_scalar_slash(s.last());
        let e = encode_utf8(s);
        let first = encode_scalar(s[0] as u32);
        assert(e == first + encode_utf8(s.drop_first()));
        assert(e[0] == first[0]);
        lemma_encode_utf8_push(s.drop_last(), s.last());
        assert(s.drop_last().push(s.last()) =~= s);
        let last = encode_scalar(s.last() as u32);
        assert(e == encode_utf8(s.drop_last()) + last);
        assert(e.last() == last.last());
    }
}

proof fn lemma_escape_bytes_ends(bytes: Seq<u8>, policy: SafeCharsType)
    ensures
        bytes.len() > 0 ==> escape_bytes(bytes, policy).len() > 0 && (escape_bytes(bytes, policy)[0]
            == '/') == (bytes[0] == 0x2f) && (escape_bytes(bytes, policy).last() == '/') == (
        bytes.last() == 0x2f),
    decreases bytes.len(),
{
    if bytes.len() > 0 {
        let c = bytes.last();
        let tail = escape_byte(c, policy.escapes(c));
        let before = escape_bytes(bytes.drop_last(), policy);
        let hi = c >> 4;
        let lo = c & 15;
        assert(hi < 16 && lo < 16) by (bit_vector)
            requires
                hi == c >> 4,
                lo == c & 15,
        ;
        assert(!policy.escapes(0x2f));
        assert(((c as u32) as char == '/') == (c == 0x2f));
        assert(tail.len() > 0 && (tail[0] == '/') == (c == 0x2f) && (tail.last() == '/') == (c
            == 0x2f));
        lemma_escape_bytes_ends(bytes.drop_last(), policy);
        let all = escape_bytes(bytes, policy);
        assert(all == before + tail);
        assert(all.last() == tail.last());
        if bytes.len() == 1 {
            assert(before == Seq::<char>::empty());
            assert(all[0] == tail[0]);
        } else {
            assert(all[0] == before[0]);
            assert(bytes.drop_last()[0] == bytes[0]);
        }
    }
}

/// A stored key, under any policy, neither begins nor ends with `/`.
pub proof fn law_keys_have_no_outer_slash(key: Seq<char>, policy: SafeCharsType)
    ensures
        normalized_key(key, policy).len() > 0 ==> normalized_key(key, policy)[0] != '/'
            && normalized_key(key, policy).last() != '/',
{
    let k = cleaned_key(key);
    lemma_cleaned_key_ends(key);
    lemma_encode_utf8_ends(k);
    lemma_escape_bytes_ends(encode_utf8(k), policy);
    if k.len() == 0 {
        assert(encode_utf8(k) == Seq::<u8>::empty());
    }
}

/// The storage form of a key: line breaks removed, surrounding slashes trimmed,
/// then the bytes escaped under the policy.
pub fn normalize(key: &str, safe_chars: &SafeCharsType) -> (r: String)
    ensures
        r@ == normalized_key(key@, *safe_chars),
{
    let cs = str_chars(key);
    let mut kept: Vec<char> = Vec::new();
    let mut i: usize = 0;
    while i < cs.len()
        invariant
            i <= cs@.len(),
            kept@ == remove_line_breaks(cs@.take(i as int)),
        decreases cs@.len() - i,
    {
        let c = cs[i];
        if !(c == '\r' || c == '\n' || c == '\u{000B}' || c == '\u{000C}' || c == '\u{0085}' || c
            == '\u{2028}' || c == '\u{2029}') {
            kept.push(c);
        }
        proof {
            let t = cs@.take(i as int + 1);
            assert(t.drop_last() =~= cs@.take(i as int));
            assert(t.last() == c);
        }
        i = i + 1;
    }
    proof {
        assert(cs@.take(cs@.len() as int) =~= cs@);
    }
    let ghost k = kept@;
    let n = kept.len();
    let mut start: usize = 0;
    proof {
        assert(k.subrange(0, n as int) =~= k);
    }
    while start < n && kept[start] == '/'
        invariant
            n == k.len(),
            kept@ == k,
            start <= n,
            trim_start_char(k, '/') == trim_start_char(k.subrange(start as int, n as int), '/'),
        decreases n - start,
    {
        proof {
            let sub = k.subrange(start as int, n as int);
            assert(sub.drop_first() =~= k.subrange(start + 1, n as int));
        }
        start = start + 1;
    }
    let ghost t = k.subrange(start as int, n as int);
    proof {
        if t.len() > 0 {
            assert(t[0] == k[start as int]);
        }
        assert(trim_start_char(t, '/') == t);
        assert(trim_start_char(k, '/') == t);
    }
    let mut end: usize = n;
    while end > start && kept[end - 1] == '/'
        invariant
            n == k.len(),
            kept@ == k,
            start <= end <= n,
            t == k.subrange(start as int, n as int),
            trim_end_char(t, '/') == trim_end_char(k.subrange(start as int, end as int), '/'),
        decreases end - start,
    {
        proof {
            let sub = k.subrange(start as int, end as int);
            assert(sub.drop_last() =~= k.subrange(start as int, end - 1));
        }
        end = end - 1;
    }
    let mut trimmed: Vec<char> = Vec::new();
    let mut j: usize = start;
    while j < end
        invariant
            start <= j <= end <= n,
            n == k.len(),
            kept@ == k,
            trimmed@ == k.subrange(start as int, j as int),
        decreases end - j,
    {
        trimmed.push(kept[j]);
        proof {
            assert(trimmed@ =~= k.subrange(start as int, j + 1));
        }
        j = j + 1;
    }
    proof {
        let u = k.subrange(start as int, end as int);
        if u.len() > 0 {
            assert(u.last() == k[end - 1]);
        }
        assert(trim_end_char(u, '/') == u);
        assert(trimmed@ =~= u);
        assert(k == remove_line_breaks(key@));
        assert(trimmed@ == cleaned_key(key@));
    }
    let cleaned = string_of(&trimmed);
    escape(cleaned.as_str(), safe_chars)
}

} // verus!
