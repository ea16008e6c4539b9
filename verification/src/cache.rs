//! The key under which the cover of a document is cached.
//!
//! A cover is stored in a file named after the SHA-256 digest of the
//! document's path. The file always carries the extension `.jpg`, and a cover
//! read back from the cache is always labelled `image/jpeg`, whatever format
//! was stored.

use crate::encoding::{hex_digit, hex_encode, hex_lower, is_hex_digit};
use vstd::prelude::*;
use vstd::string::*;
use vstd::utf8::*;

verus! {

/// The SHA-256 digest of a byte string.
pub uninterp spec fn sha256(data: Seq<u8>) -> Seq<u8>;

/// `Digest::digest` of `sha2::Sha256`: the SHA-256 digest of the data, which
/// is 32 bytes long.
#[verifier::external_body]
fn sha256_digest(data: &[u8]) -> (digest: Vec<u8>)
    ensures
        digest@ == sha256(data@),
        digest@.len() == 32,
{
    <sha2::Sha256 as sha2::Digest>::digest(data).to_vec()
}

/// The cache key of a path: the digest of its UTF-8 bytes in hexadecimal.
pub open spec fn cache_key_of(path: Seq<char>) -> Seq<char> {
    hex_lower(sha256(encode_utf8(path)))
}

/// The name of the cache file of a path.
pub open spec fn cache_file_of(path: Seq<char>) -> Seq<char> {
    cache_key_of(path) + ".jpg"@
}

/// The MIME type with which a cached cover is handed out.
pub open spec fn cached_mime() -> Seq<char> {
    "image/jpeg"@
}

/// Writes a digest as a key: two lower-case hexadecimal digits for each byte.
pub fn key_of_digest(digest: &[u8]) -> (key: String)
    ensures
        key@ == hex_lower(digest@),
        key@.len() == 2 * digest@.len(),
        forall|i: int| 0 <= i < key@.len() ==> is_hex_digit(#[trigger] key@[i]),
{
    let key = hex_encode(digest);
    assert forall|i: int| 0 <= i < key@.len() implies is_hex_digit(#[trigger] key@[i]) by {
        let half = if i % 2 == 0 {
            digest@[i / 2] as int / 16
        } else {
            digest@[i / 2] as int % 16
        };
        assert(key@[i] == hex_digit(half));
        assert(0 <= half < 16);
    }
    key
}

/// Computes the cache key of a path. The key is a function of the path
/// alone: the same path gives the same key in every run. It is 64
/// hexadecimal digits long.
pub fn cache_key(path: &str) -> (key: String)
    ensures
        key@ == cache_key_of(path@),
        key@.len() == 64,
        forall|i: int| 0 <= i < 64 ==> is_hex_digit(#[trigger] key@[i]),
{
    let digest = sha256_digest(path.as_bytes());
    key_of_digest(digest.as_slice())
}

/// Computes the name of the cache file of a path: the key and `.jpg`.
pub fn cache_file_name(path: &str) -> (name: String)
    ensures
        name@ == cache_file_of(path@),
{
    let mut name = cache_key(path);
    name.append(".jpg");
    name
}

/// The digit of a half byte tells the half byte.
proof fn hex_digit_tells_value(a: int, b: int)
    requires
        0 <= a < 16,
        0 <= b < 16,
        hex_digit(a) == hex_digit(b),
    ensures
        a == b,
{
    assert(hex_digit(a) as int == if a < 10 { 48 + a } else { 97 + a - 10 });
    assert(hex_digit(b) as int == if b < 10 { 48 + b } else { 97 + b - 10 });
}

/// Byte strings with the same hexadecimal digits are the same.
proof fn hex_tells_bytes(a: Seq<u8>, b: Seq<u8>)
    requires
        hex_lower(a) == hex_lower(b),
    ensures
        a == b,
{
    assert(hex_lower(a).len() == 2 * a.len());
    assert(hex_lower(b).len() == 2 * b.len());
    assert forall|i: int| 0 <= i < a.len() implies a[i] == b[i] by {
        assert(hex_lower(a)[2 * i] == hex_digit(a[(2 * i) / 2] as int / 16));
        assert(hex_lower(b)[2 * i] == hex_digit(b[(2 * i) / 2] as int / 16));
        assert(hex_lower(a)[2 * i + 1] == hex_digit(a[(2 * i + 1) / 2] as int % 16));
        assert(hex_lower(b)[2 * i + 1] == hex_digit(b[(2 * i + 1) / 2] as int % 16));
        hex_digit_tells_value(a[i] as int / 16, b[i] as int / 16);
        hex_digit_tells_value(a[i] as int % 16, b[i] as int % 16);
    }
    assert(a =~= b);
}

/// The same path always has the same key.
pub proof fn same_path_same_key(first: Seq<char>, second: Seq<char>)
    requires
        first == second,
    ensures
        cache_key_of(first) == cache_key_of(second),
        cache_file_of(first) == cache_file_of(second),
{
}

/// Two paths share a key only where their UTF-8 bytes have the same digest:
/// writing the digest as a key loses nothing. Two different paths never have
/// the same bytes, so they share a key only where SHA-256 collides.
pub proof fn shared_key_means_shared_digest(first: Seq<char>, second: Seq<char>)
    requires
        cache_key_of(first) == cache_key_of(second),
    ensures
        sha256(encode_utf8(first)) == sha256(encode_utf8(second)),
        first != second ==> encode_utf8(first) != encode_utf8(second),
{
    hex_tells_bytes(sha256(encode_utf8(first)), sha256(encode_utf8(second)));
    encode_utf8_decode_utf8(first);
    encode_utf8_decode_utf8(second);
}

} // verus!
