//! Calls into the hashing, hex and form-encoding crates, with what their
//! sources show of the results.
use sha1::Digest;
use vstd::prelude::*;
use vstd::utf8::encode_utf8;

verus! {

/// Name for the SHA-1 digest that `sha1::Sha1::digest` computes of a byte string.
pub uninterp spec fn sha1_of(data: Seq<u8>) -> Seq<u8>;

/// `sha1::Sha1::digest`: the digest is the named SHA-1 of the input and, as
/// the output size of the algorithm, twenty bytes long.
#[verifier::external_body]
pub(crate) fn sha1_digest(data: &[u8]) -> (r: Vec<u8>)
    ensures
        r@ == sha1_of(data@),
        r@.len() == 20,
{
    sha1::Sha1::digest(data).to_vec()
}

/// Lower-case hexadecimal digit of a value below sixteen.
pub open spec fn lower_hex_digit(v: u8) -> char {
    if v < 10 {
        ((v + 48) as u32) as char
    } else {
        ((v + 87) as u32) as char
    }
}

/// Lower-case hexadecimal text of a byte string: two digits per byte, the high
/// half first.
pub open spec fn hex_lower(data: Seq<u8>) -> Seq<char>
    decreases data.len(),
{
    if data.len() == 0 {
        seq![]
    } else {
        hex_lower(data.drop_last()) + seq![
            lower_hex_digit(data.last() >> 4),
            lower_hex_digit(data.last() & 15),
        ]
    }
}

pub proof fn lemma_hex_lower_len(data: Seq<u8>)
    ensures
        hex_lower(data).len() == 2 * data.len(),
    decreases data.len(),
{
    if data.len() > 0 {
        lemma_hex_lower_len(data.drop_last());
    }
}

pub proof fn lemma_hex_lower_take(data: Seq<u8>, k: int)
    requires
        0 <= k <= data.len(),
    ensures
        hex_lower(data.take(k)) == hex_lower(data).take(2 * k),
    decreases data.len(),
{
    lemma_hex_lower_len(data);
    lemma_hex_lower_len(data.take(k));
    if k < data.len() {
        lemma_hex_lower_take(data.drop_last(), k);
        assert(data.drop_last().take(k) =~= data.take(k));
        lemma_hex_lower_len(data.drop_last());
        assert(hex_lower(data).take(2 * k) =~= hex_lower(data.drop_last()).take(2 * k));
    } else {
        assert(data.take(k) =~= data);
        assert(hex_lower(data).take(2 * k) =~= hex_lower(data));
    }
}

/// `hex::encode`: lower-case hexadecimal text of the bytes, the high half of
/// each byte first (the crate's `BytesToHexChars` over its lower-case table).
#[verifier::external_body]
pub(crate) fn hex_encode(data: &[u8]) -> (r: String)
    ensures
        r@ == hex_lower(data@),
{
    hex::encode(data)
}

/// Upper-case hexadecimal digit of a value below sixteen.
pub open spec fn upper_hex(v: u8) -> char {
    if v < 10 {
        ((v + 48) as u32) as char
    } else {
        ((v + 55) as u32) as char
    }
}

/// Bytes that form encoding keeps: `* - . _`, ASCII digits and letters.
pub open spec fn form_unchanged(b: u8) -> bool {
    b == 0x2a || b == 0x2d || b == 0x2e || b == 0x5f || (0x30 <= b <= 0x39) || (0x41 <= b <= 0x5a)
        || (0x61 <= b <= 0x7a)
}

/// What form encoding makes of one byte.
pub open spec fn form_byte(b: u8) -> Seq<char> {
    if form_unchanged(b) {
        seq![(b as u32) as char]
    } else if b == 0x20 {
        seq!['+']
    } else {
        seq!['%', upper_hex(b >> 4), upper_hex(b & 15)]
    }
}

/// `application/x-www-form-urlencoded` byte serialization.
pub open spec fn form_bytes(data: Seq<u8>) -> Seq<char>
    decreases data.len(),
{
    if data.len() == 0 {
        seq![]
    } else {
        form_bytes(data.drop_last()) + form_byte(data.last())
    }
}

/// `url::form_urlencoded::Serializer` on a fresh string with one pair appended:
/// the serialized name, `=`, the serialized value (the crate's `append_pair`
/// with no encoding override, then `byte_serialize` with upper-case `%XX`).
#[verifier::external_body]
pub(crate) fn form_encode_pair(name: &str, value: &str) -> (r: String)
    ensures
        r@ == form_bytes(encode_utf8(name@)) + seq!['='] + form_bytes(encode_utf8(value@)),
{
    url::form_urlencoded::Serializer::new(String::new()).append_pair(name, value).finish()
}

} // verus!
