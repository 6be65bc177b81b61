//! Storage keys of sources and results, from the SHA-1 of a path.
use vstd::prelude::*;
use vstd::utf8::encode_utf8;
use argon2::password_hash::SaltString;
use argon2::{Algorithm, Argon2, PasswordHash, PasswordHasher, PasswordVerifier, Version};
use super::filter::{image_type_text, Filter, ImageType};
use super::params::{filter_views, Params, ParamsModel};
use crate::cyberpunkpath::hasher::{
    digest_path_text, hex_digest_path, last_index, last_index_of, lemma_last_index_of,
    short_hash, short_hash_text, suffixed_image,
};
use crate::grammar::push_range;
use crate::text::{int_text, nat_text, push_int, push_str, str_chars, string_of};

verus! {

/// The format asked for by the first `format` filter.
pub open spec fn first_format(fs: Seq<Filter<Seq<char>>>) -> Option<ImageType>
    decreases fs.len(),
{
    if fs.len() == 0 {
        None
    } else {
        match fs[0] {
            Filter::Format(t) => Some(t),
            _ => first_format(fs.drop_first()),
        }
    }
}

/// The extension text of the format asked for, if any.
pub open spec fn format_text(p: ParamsModel) -> Option<Seq<char>> {
    match first_format(p.filters) {
        Some(t) => Some(image_type_text(t)),
        None => None,
    }
}

/// `_WxH` when a width or a height is given, a missing one written as 0.
pub open spec fn size_text(p: ParamsModel) -> Seq<char> {
    if p.width is Some || p.height is Some {
        seq!['_'] + int_text(
            match p.width {
                Some(w) => w as int,
                None => 0,
            },
        ) + seq!['x'] + int_text(
            match p.height {
                Some(h) => h as int,
                None => 0,
            },
        )
    } else {
        seq![]
    }
}

/// Storage key of a source image: `aa/bb/rest` from the hex SHA-1 of its name.
pub fn digest_storage_hasher(image: &str) -> (r: String)
    ensures
        r@ == digest_path_text(image@),
        r@.len() == 42 && r@[2] == '/' && r@[5] == '/',
{
    hex_digest_path(image)
}

/// Storage key of a result: `aa/bb/rest` from the hex SHA-1 of its path.
/// Parameters without a path are refused by `requires`: no writer of imagor
/// paths stands in this library to give them a path to hash.
pub fn digest_result_storage_hasher(p: &Params) -> (r: String)
    requires
        p@.path is Some,
    ensures
        r@ == digest_path_text(p@.path.unwrap()),
        r@.len() == 42 && r@[2] == '/' && r@[5] == '/',
{
    match &p.path {
        Some(path) => hex_digest_path(path.as_str()),
        None => String::new(),
    }
}

fn find_format(filters: &Vec<Filter>) -> (r: Option<ImageType>)
    ensures
        r == first_format(filter_views(filters@)),
{
    let ghost fs = filter_views(filters@);
    let mut i: usize = 0;
    proof {
        assert(fs.subrange(0, fs.len() as int) =~= fs);
    }
    while i < filters.len()
        invariant
            i <= filters@.len(),
            fs == filter_views(filters@),
            first_format(fs) == first_format(fs.subrange(i as int, fs.len() as int)),
        decreases filters@.len() - i,
    {
        proof {
            assert(fs.subrange(i as int, fs.len() as int)[0] == filters@[i as int]@);
            assert(fs.subrange(i as int, fs.len() as int).drop_first() =~= fs.subrange(
                i + 1,
                fs.len() as int,
            ));
        }
        match &filters[i] {
            Filter::Format(t) => {
                return Some(*t);
            },
            _ => {},
        }
        i = i + 1;
    }
    None
}

/// The image with the short hash of the path and `size` before its extension.
fn suffix_with(p: &Params, size: &[char]) -> (r: String)
    requires
        p@.path is Some,
        p@.image is Some,
    ensures
        r@ == suffixed_image(
            p@.image.unwrap(),
            short_hash_text(p@.path.unwrap()) + size@,
            p@.meta,
            format_text(p@),
        ),
{
    let (path, image) = match (&p.path, &p.image) {
        (Some(a), Some(b)) => (a.as_str(), str_chars(b.as_str())),
        _ => ("", Vec::new()),
    };
    let mut hash = short_hash(path);
    crate::text::push_all(&mut hash, size);
    let dot_idx = last_index(&image, '.');
    let slash_idx = last_index(&image, '/');
    proof {
        lemma_last_index_of(image@, '.');
        lemma_last_index_of(image@, '/');
    }
    let mut out: Vec<char> = Vec::new();
    match dot_idx {
        Some(d) => {
            let before = match slash_idx {
                Some(s) => s < d,
                None => true,
            };
            if before {
                push_range(&mut out, &image, 0, d);
                crate::text::push_all(&mut out, &hash);
                if p.meta {
                    push_str(&mut out, ".json");
                } else {
                    match find_format(&p.filters) {
                        Some(t) => {
                            out.push('.');
                            push_str(&mut out, t.as_str());
                        },
                        None => push_range(&mut out, &image, d, image.len()),
                    }
                }
                proof {
                    let img = p@.image.unwrap();
                    assert(last_index_of(img, '.') == Some(d as int));
                    assert(out@ =~= suffixed_image(
                        img,
                        short_hash_text(p@.path.unwrap()) + size@,
                        p@.meta,
                        format_text(p@),
                    ));
                }
                return string_of(&out);
            }
        },
        None => {},
    }
    crate::text::push_all(&mut out, &image);
    crate::text::push_all(&mut out, &hash);
    string_of(&out)
}

/// Storage key of a result: the image with `.` and the short hash of its path
/// before its extension; the extension is `.json` for metadata, else the
/// requested format, else the image's own.
/// Parameters without a path are refused by `requires`: no writer of imagor
/// paths stands in this library to give them a path to hash.
pub fn suffix_result_storage_hasher(p: &Params) -> (r: String)
    requires
        p@.path is Some,
        p@.image is Some,
    ensures
        r@ == suffixed_image(
            p@.image.unwrap(),
            short_hash_text(p@.path.unwrap()),
            p@.meta,
            format_text(p@),
        ),
{
    let r = suffix_with(p, &[]);
    proof {
        assert(short_hash_text(p@.path.unwrap()) + Seq::<char>::empty() =~= short_hash_text(
            p@.path.unwrap(),
        ));
    }
    r
}

/// Storage key of a result: as the suffix key, with `_WxH` after the hash when
/// a size is given.
/// Parameters without a path are refused by `requires`: no writer of imagor
/// paths stands in this library to give them a path to hash.
pub fn size_suffix_result_storage_hasher(p: &Params) -> (r: String)
    requires
        p@.path is Some,
        p@.image is Some,
    ensures
        r@ == suffixed_image(
            p@.image.unwrap(),
            short_hash_text(p@.path.unwrap()) + size_text(p@),
            p@.meta,
            format_text(p@),
        ),
{
    let mut size: Vec<char> = Vec::new();
    if p.width.is_some() || p.height.is_some() {
        size.push('_');
        let w: i32 = match p.width {
            Some(w) => w,
            None => 0,
        };
        let h: i32 = match p.height {
            Some(h) => h,
            None => 0,
        };
        push_int(&mut size, w as i64);
        size.push('x');
        push_int(&mut size, h as i64);
    }
    proof {
        assert(size@ =~= size_text(p@));
    }
    suffix_with(p, &size)
}

/// Without a width and a height, the size-suffixed result key is the plain
/// suffixed key.
pub proof fn law_size_suffix_without_size(p: ParamsModel)
    requires
        p.width is None,
        p.height is None,
    ensures
        suffixed_image(p.image.unwrap(), short_hash_text(p.path.unwrap()) + size_text(p), p.meta, format_text(p))
            == suffixed_image(p.image.unwrap(), short_hash_text(p.path.unwrap()), p.meta, format_text(p)),
{
    assert(short_hash_text(p.path.unwrap()) + size_text(p) =~= short_hash_text(p.path.unwrap()));
}

/// Why a path hash was refused.
#[derive(Debug, Clone, PartialEq, Eq)]
pub enum AuthError {
    /// The hash is well formed and the path does not match it.
    InvalidCredentials(String),
    /// Anything else: a hash that is not a PHC string, or a failure to hash.
    UnexpectedError(String),
}

/// What Argon2 says of a password against a PHC hash string: `None` when the
/// string is not a PHC hash, else whether the password matches it, under the
/// algorithm, version, parameters and salt that the string carries.
pub uninterp spec fn phc_verdict(phc: Seq<char>, password: Seq<u8>) -> Option<bool>;

/// `argon2::PasswordHash::new` on `phc`, then `verify_password` of
/// `Argon2::default()` with `password`. Claims that the outcome is a function of
/// the two arguments alone, named `phc_verdict`.
#[verifier::external_body]
fn argon2_verify(phc: &str, password: &[u8]) -> (r: Option<bool>)
    ensures
        r == phc_verdict(phc@, password@),
{
    match PasswordHash::new(phc) {
        Ok(h) => Some(Argon2::default().verify_password(password, &h).is_ok()),
        Err(_) => None,
    }
}

/// Whether Argon2 takes these costs: at least 8 KiB and 8 KiB per lane, at
/// least one pass, and between 1 and 2^24 - 1 lanes.
pub open spec fn argon2_costs_valid(m_cost: u32, t_cost: u32, p_cost: u32) -> bool {
    &&& m_cost >= 8
    &&& m_cost >= 8 * p_cost
    &&& t_cost >= 1
    &&& 1 <= p_cost <= 0xFF_FFFF
}

/// How the PHC string of an Argon2id, version 19 hash with these costs
/// begins: algorithm, version and parameters, each after a `$`, then the `$`
/// before the salt.
pub open spec fn argon2id_phc_head(m_cost: u32, t_cost: u32, p_cost: u32) -> Seq<char> {
    "$argon2id$v=19$m="@ + nat_text(m_cost as nat) + ",t="@ + nat_text(t_cost as nat) + ",p="@
        + nat_text(p_cost as nat) + "$"@
}

/// `argon2::Params::new(m_cost, t_cost, p_cost, None)`, then `hash_password` of
/// an Argon2id, version 0x13 hasher with a salt from `SaltString::generate` on
/// `rand::thread_rng()`, the hash written as its PHC string. Claims: costs
/// that `Params::new` refuses give an error; costs it takes, with a password
/// of at most `u32::MAX` bytes, give a PHC string (`hash_password` then fails
/// only on a password too long, a salt outside 8 to `u32::MAX` bytes, or an
/// output length out of range, and the generated salt has 16 bytes and the
/// output 32); that string begins with the algorithm, the version and the
/// three costs, as `PasswordHash`'s `Display` writes them, and verifies for
/// the same password. The salt and the hash that follow are random and are
/// not stated.
#[verifier::external_body]
fn argon2id_hash(password: &[u8], m_cost: u32, t_cost: u32, p_cost: u32) -> (r: Result<String, String>)
    requires
        8 * p_cost <= u32::MAX,
    ensures
        !argon2_costs_valid(m_cost, t_cost, p_cost) ==> r is Err,
        argon2_costs_valid(m_cost, t_cost, p_cost) && password@.len() <= u32::MAX ==> r is Ok,
        r matches Ok(phc) ==> {
            &&& argon2id_phc_head(m_cost, t_cost, p_cost).is_prefix_of(phc@)
            &&& phc_verdict(phc@, password@) == Some(true)
        },
{
    let params = match argon2::Params::new(m_cost, t_cost, p_cost, None) {
        Ok(p) => p,
        Err(e) => return Err(e.to_string()),
    };
    let salt = SaltString::generate(&mut rand::thread_rng());
    match Argon2::new(Algorithm::Argon2id, Version::V0x13, params).hash_password(password, &salt) {
        Ok(h) => Ok(h.to_string()),
        Err(e) => Err(e.to_string()),
    }
}

/// Checks a path against the Argon2 hash it was signed with.
pub fn verify_hash(expected_path_hash: &str, path_candidate: &str) -> (r: Result<(), AuthError>)
    ensures
        match phc_verdict(expected_path_hash@, encode_utf8(path_candidate@)) {
            None => r matches Err(AuthError::UnexpectedError(m)) && m@
                == "Failed to parse hash in PHC string format."@,
            Some(true) => r is Ok,
            Some(false) => r matches Err(AuthError::InvalidCredentials(m)) && m@ == "Invalid hash"@,
        },
{
    match argon2_verify(expected_path_hash, path_candidate.as_bytes()) {
        None => Err(
            AuthError::UnexpectedError(
                string_of(&str_chars("Failed to parse hash in PHC string format.")),
            ),
        ),
        Some(true) => Ok(()),
        Some(false) => Err(AuthError::InvalidCredentials(string_of(&str_chars("Invalid hash")))),
    }
}

/// Hashes a path with Argon2id (15000 KiB, 2 passes, 1 lane) and a fresh
/// random salt. The PHC string it gives names Argon2id, version 19 and those
/// costs, and verifies for that path. Hashing fails only on a path of more
/// than `u32::MAX` bytes, which comes back as `UnexpectedError`.
pub fn compute_hash(path: String) -> (r: Result<String, AuthError>)
    ensures
        encode_utf8(path@).len() <= u32::MAX ==> r is Ok,
        r matches Ok(phc) ==> {
            &&& argon2id_phc_head(15000, 2, 1).is_prefix_of(phc@)
            &&& phc_verdict(phc@, encode_utf8(path@)) == Some(true)
        },
        r matches Err(e) ==> e is UnexpectedError,
{
    match argon2id_hash(path.as_str().as_bytes(), 15000, 2, 1) {
        Ok(phc) => Ok(phc),
        Err(e) => Err(AuthError::UnexpectedError(e)),
    }
}

} // verus!
