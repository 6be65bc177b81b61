//! Storage keys derived from the SHA-1 of a path.
use vstd::prelude::*;
use vstd::utf8::encode_utf8;
use super::generate::{generate_ok, generate_path, generated_path};
use super::params::{Filter, Params, ParamsModel};
use crate::digest::{hex_encode, hex_lower, lemma_hex_lower_len, sha1_digest, sha1_of};
use crate::grammar::push_range;
use crate::text::{int_text, push_int, push_str, str_chars, string_of};

verus! {

/// `aa/bb/rest` from the hex SHA-1 of a text.
pub open spec fn digest_path_text(path: Seq<char>) -> Seq<char> {
    let h = hex_lower(sha1_of(encode_utf8(path)));
    h.subrange(0, 2) + seq!['/'] + h.subrange(2, 4) + seq!['/'] + h.subrange(4, h.len() as int)
}

/// `.` and the hex of the first ten bytes of the SHA-1 of a text.
pub open spec fn short_hash_text(path: Seq<char>) -> Seq<char> {
    seq!['.'] + hex_lower(sha1_of(encode_utf8(path)).take(10))
}

/// The last position of `c` in `s`.
pub open spec fn last_index_of(s: Seq<char>, c: char) -> Option<int>
    decreases s.len(),
{
    if s.len() == 0 {
        None
    } else if s.last() == c {
        Some(s.len() - 1)
    } else {
        last_index_of(s.drop_last(), c)
    }
}

pub proof fn lemma_last_index_of(s: Seq<char>, c: char)
    ensures
        match last_index_of(s, c) {
            Some(i) => 0 <= i < s.len() && s[i] == c && forall|j: int|
                i < j < s.len() ==> s[j] != c,
            None => forall|j: int| 0 <= j < s.len() ==> s[j] != c,
        },
    decreases s.len(),
{
    if s.len() > 0 && s.last() != c {
        let t = s.drop_last();
        lemma_last_index_of(t, c);
        assert forall|j: int| 0 <= j < t.len() implies t[j] == s[j] by {}
    }
}

/// `image` with `hash` put before its extension, the extension being `.json`
/// for metadata, or the requested format, or the image's own; an image whose
/// last dot is not in its last path segment has no extension and gets the hash
/// at its end.
pub open spec fn suffixed_image(image: Seq<char>, hash: Seq<char>, meta: bool, format: Option<
    Seq<char>,
>) -> Seq<char> {
    match last_index_of(image, '.') {
        Some(d) => if (match last_index_of(image, '/') {
            Some(s) => s < d,
            None => true,
        }) {
            let ext = if meta {
                ".json"@
            } else {
                match format {
                    Some(f) => seq!['.'] + f,
                    None => image.subrange(d, image.len() as int),
                }
            };
            image.subrange(0, d) + hash + ext
        } else {
            image + hash
        },
        None => image + hash,
    }
}

/// The arguments of the first filter named `format`.
pub open spec fn first_format(fs: Seq<Filter<Seq<char>>>) -> Option<Option<Seq<char>>>
    decreases fs.len(),
{
    if fs.len() == 0 {
        None
    } else if fs[0].name == Some("format"@) {
        Some(fs[0].args)
    } else {
        first_format(fs.drop_first())
    }
}

/// The path a result is stored under: the path as given, else the generated one.
pub open spec fn result_path(p: ParamsModel) -> Seq<char> {
    match p.path {
        Some(s) => s,
        None => generated_path(p),
    }
}

pub open spec fn size_text(p: ParamsModel) -> Seq<char> {
    if p.width is Some || p.height is Some {
        seq!['_'] + int_text(
            match p.width {
                Some(w) => w as int,
                None => 0,
            },
        ) + seq!['x'] + int_text(
            match p.height {
                Some(h) => h as int,
                None => 0,
            },
        )
    } else {
        seq![]
    }
}

pub open spec fn format_of(p: ParamsModel) -> Option<Seq<char>> {
    match first_format(p.filters) {
        Some(a) => a,
        None => None,
    }
}

/// Parameters whose key can be derived: a path, or parameters that generate
/// one; an image; and a `format` filter with arguments where its arguments
/// would be read.
pub open spec fn suffix_ok(p: ParamsModel) -> bool {
    &&& (p.path is None ==> generate_ok(p))
    &&& p.image is Some
    &&& (!p.meta && last_index_of(p.image.unwrap(), '.') is Some && first_format(p.filters) is Some
        ==> first_format(p.filters).unwrap() is Some)
}

/// `aa/bb/rest` from the hex SHA-1 of a path.
pub(crate) fn hex_digest_path(path: &str) -> (r: String)
    ensures
        r@ == digest_path_text(path@),
        r@.len() == 42 && r@[2] == '/' && r@[5] == '/',
{
    let digest = sha1_digest(path.as_bytes());
    let hash = hex_encode(&digest);
    let h = str_chars(hash.as_str());
    proof {
        lemma_hex_lower_len(digest@);
    }
    let mut out: Vec<char> = Vec::new();
    push_range(&mut out, &h, 0, 2);
    out.push('/');
    push_range(&mut out, &h, 2, 4);
    out.push('/');
    push_range(&mut out, &h, 4, h.len());
    proof {
        assert(out@ =~= digest_path_text(path@));
    }
    string_of(&out)
}

/// Storage key of a source image: two levels of two hex digits, then the
/// remaining 36.
pub fn digest_storage_hasher(image: &str) -> (r: String)
    ensures
        r@ == digest_path_text(image@),
        r@.len() == 42 && r@[2] == '/' && r@[5] == '/',
{
    hex_digest_path(image)
}

fn result_path_of(p: &Params) -> (r: String)
    requires
        p@.path is None ==> generate_ok(p@),
    ensures
        r@ == result_path(p@),
{
    match &p.path {
        Some(s) => string_of(&str_chars(s.as_str())),
        None => generate_path(p),
    }
}

/// Storage key of a result: `aa/bb/rest` from the SHA-1 of its path.
pub fn digest_result_storage_hasher(p: &Params) -> (r: String)
    requires
        p@.path is None ==> generate_ok(p@),
    ensures
        r@ == digest_path_text(result_path(p@)),
        r@.len() == 42 && r@[2] == '/' && r@[5] == '/',
{
    let path = result_path_of(p);
    hex_digest_path(path.as_str())
}

pub(crate) fn short_hash(path: &str) -> (r: Vec<char>)
    ensures
        r@ == short_hash_text(path@),
{
    let digest = sha1_digest(path.as_bytes());
    let mut first: Vec<u8> = Vec::new();
    let mut i: usize = 0;
    while i < 10
        invariant
            i <= 10,
            digest@.len() == 20,
            first@ == digest@.take(i as int),
        decreases 10 - i,
    {
        first.push(digest[i]);
        proof {
            assert(first@ =~= digest@.take(i + 1));
        }
        i = i + 1;
    }
    let hex = hex_encode(&first);
    let mut out: Vec<char> = Vec::new();
    out.push('.');
    push_str(&mut out, hex.as_str());
    out
}

pub(crate) fn last_index(s: &[char], c: char) -> (r: Option<usize>)
    ensures
        r is Some <==> last_index_of(s@, c) is Some,
        r matches Some(i) ==> last_index_of(s@, c) == Some(i as int),
{
    let mut i = s.len();
    proof {
        assert(s@.take(i as int) =~= s@);
    }
    while i > 0
        invariant
            i <= s@.len(),
            last_index_of(s@, c) == last_index_of(s@.take(i as int), c),
        decreases i,
    {
        proof {
            assert(s@.take(i as int).drop_last() =~= s@.take(i - 1));
        }
        if s[i - 1] == c {
            return Some(i - 1);
        }
        i = i - 1;
    }
    None
}

fn find_format(filters: &Vec<Filter>) -> (r: Option<&Filter>)
    ensures
        match first_format(filters@.map_values(|f: Filter| f@)) {
            Some(a) => r matches Some(f) && f@.args == a,
            None => r is None,
        },
{
    let ghost fs = filters@.map_values(|f: Filter| f@);
    let mut i: usize = 0;
    proof {
        assert(fs.subrange(0, fs.len() as int) =~= fs);
    }
    while i < filters.len()
        invariant
            i <= filters@.len(),
            fs == filters@.map_values(|f: Filter| f@),
            first_format(fs) == first_format(fs.subrange(i as int, fs.len() as int)),
        decreases filters@.len() - i,
    {
        let f = &filters[i];
        proof {
            assert(fs.subrange(i as int, fs.len() as int)[0] == f@);
            assert(fs.subrange(i as int, fs.len() as int).drop_first() =~= fs.subrange(
                i + 1,
                fs.len() as int,
            ));
        }
        let is_format = match &f.name {
            Some(n) => {
                let cs = str_chars(n.as_str());
                let lit = str_chars("format");
                cs.len() == lit.len() && crate::text::starts_at(&cs, 0, &lit)
            },
            None => false,
        };
        proof {
            if let Some(n) = &f.name {
                assert(n@.subrange(0, n@.len() as int) =~= n@);
            }
        }
        if is_format {
            return Some(f);
        }
        i = i + 1;
    }
    None
}

/// The image with the short hash of the result path and `size` before its
/// extension.
fn suffix_with(p: &Params, size: &[char]) -> (r: String)
    requires
        suffix_ok(p@),
    ensures
        r@ == suffixed_image(
            p@.image.unwrap(),
            short_hash_text(result_path(p@)) + size@,
            p@.meta,
            format_of(p@),
        ),
{
    let path = result_path_of(p);
    let mut hash = short_hash(path.as_str());
    crate::text::push_all(&mut hash, size);
    let image = match &p.image {
        Some(i) => str_chars(i.as_str()),
        None => Vec::new(),
    };
    proof {
        assert(image@ == p@.image.unwrap());
        assert(p@.filters =~= p.filters@.map_values(|f: Filter| f@));
    }
    let dot_idx = last_index(&image, '.');
    let slash_idx = last_index(&image, '/');
    proof {
        lemma_last_index_of(image@, '.');
        lemma_last_index_of(image@, '/');
    }
    let mut out: Vec<char> = Vec::new();
    match dot_idx {
        Some(d) => {
            let before = match slash_idx {
                Some(s) => s < d,
                None => true,
            };
            if before {
                push_range(&mut out, &image, 0, d);
                crate::text::push_all(&mut out, &hash);
                if p.meta {
                    push_str(&mut out, ".json");
                } else {
                    match find_format(&p.filters) {
                        Some(f) => {
                            proof {
                                assert(f@.args is Some);
                            }
                            out.push('.');
                            match &f.args {
                                Some(a) => push_str(&mut out, a.as_str()),
                                None => {},
                            }
                        },
                        None => push_range(&mut out, &image, d, image.len()),
                    }
                }
                proof {
                    let img = p@.image.unwrap();
                    assert(last_index_of(img, '.') == Some(d as int));
                    assert(match last_index_of(img, '/') {
                        Some(s) => s < d,
                        None => true,
                    });
                    assert(hash@ == short_hash_text(result_path(p@)) + size@);
                    assert(out@ =~= suffixed_image(
                        p@.image.unwrap(),
                        short_hash_text(result_path(p@)) + size@,
                        p@.meta,
                        format_of(p@),
                    ));
                }
                return string_of(&out);
            }
        },
        None => {},
    }
    crate::text::push_all(&mut out, &image);
    crate::text::push_all(&mut out, &hash);
    string_of(&out)
}

/// Storage key of a result: the image with `.` and the short hash of the
/// result path before its extension.
pub fn suffix_result_storage_hasher(p: &Params) -> (r: String)
    requires
        suffix_ok(p@),
    ensures
        r@ == suffixed_image(
            p@.image.unwrap(),
            short_hash_text(result_path(p@)),
            p@.meta,
            format_of(p@),
        ),
{
    let r = suffix_with(p, &[]);
    proof {
        assert(short_hash_text(result_path(p@)) + Seq::<char>::empty() =~= short_hash_text(
            result_path(p@),
        ));
    }
    r
}

/// Storage key of a result: as the suffix key, with `_WxH` after the hash when
/// a size is given.
pub fn size_suffix_result_storage_hasher(p: &Params) -> (r: String)
    requires
        suffix_ok(p@),
    ensures
        r@ == suffixed_image(
            p@.image.unwrap(),
            short_hash_text(result_path(p@)) + size_text(p@),
            p@.meta,
            format_of(p@),
        ),
{
    let mut size: Vec<char> = Vec::new();
    if p.width.is_some() || p.height.is_some() {
        size.push('_');
        let w: i32 = match p.width {
            Some(w) => w,
            None => 0,
        };
        let h: i32 = match p.height {
            Some(h) => h,
            None => 0,
        };
        push_int(&mut size, w as i64);
        size.push('x');
        push_int(&mut size, h as i64);
    }
    proof {
        assert(size@ =~= size_text(p@));
    }
    suffix_with(p, &size)
}

/// A result key with a size part differs from the plain suffix key only by
/// that part: without a width and a height they are the same key.
pub proof fn law_size_suffix_without_size(p: ParamsModel)
    requires
        p.width is None,
        p.height is None,
    ensures
        suffixed_image(p.image.unwrap(), short_hash_text(result_path(p)) + size_text(p), p.meta, format_of(p))
            == suffixed_image(p.image.unwrap(), short_hash_text(result_path(p)), p.meta, format_of(p)),
{
    assert(short_hash_text(result_path(p)) + size_text(p) =~= short_hash_text(result_path(p)));
}

/// The result key of parameters that carry their path is the source key of
/// that path.
pub proof fn law_result_key_is_path_key(p: ParamsModel)
    requires
        p.path is Some,
    ensures
        digest_path_text(result_path(p)) == digest_path_text(p.path.unwrap()),
{
}

} // verus!
