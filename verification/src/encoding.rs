//! The byte and text encodings the library relies on: base64 in its standard
//! and URL-safe forms, SHA-256, and `application/x-www-form-urlencoded`
//! bodies. Each is computed by the outside crate that implements it.

use vstd::prelude::*;
use base64::Engine;
use sha2::Digest;

verus! {

/// The standard base64 text of `bytes` (RFC 4648 alphabet, padded with `=`),
/// as `base64::engine::general_purpose::STANDARD` writes it.
pub uninterp spec fn base64_standard(bytes: Seq<u8>) -> Seq<char>;

/// The URL-safe base64 text of `bytes` (RFC 4648 URL alphabet, no padding),
/// as `base64::engine::general_purpose::URL_SAFE_NO_PAD` writes it.
pub uninterp spec fn base64_url_unpadded(bytes: Seq<u8>) -> Seq<char>;

/// The SHA-256 digest of `bytes`.
pub uninterp spec fn sha256(bytes: Seq<u8>) -> Seq<u8>;

/// The `application/x-www-form-urlencoded` body of the name/value `pairs`, in
/// order, as `form_urlencoded::Serializer` writes it.
pub uninterp spec fn form_urlencoded(pairs: Seq<(Seq<char>, Seq<char>)>) -> Seq<char>;

/// A character of the URL-safe base64 alphabet.
pub open spec fn is_url_safe_char(c: char) -> bool {
    ('a' <= c && c <= 'z') || ('A' <= c && c <= 'Z') || ('0' <= c && c <= '9') || c == '-' || c == '_'
}

/// `STANDARD.encode(bytes)` of the base64 crate.
///
/// Trusted: the result is the standard padded base64 text of the bytes.
#[verifier::external_body]
pub(crate) fn base64_standard_encode(bytes: &[u8]) -> (r: String)
    ensures
        r@ == base64_standard(bytes@),
{
    base64::engine::general_purpose::STANDARD.encode(bytes)
}

/// `STANDARD.decode(text)` of the base64 crate, its error dropped.
///
/// Trusted: the engine is configured to require canonical padding and to
/// reject trailing bits, so it accepts exactly the texts that are the
/// standard encoding of some bytes, and gives back those bytes.
#[verifier::external_body]
pub(crate) fn base64_standard_decode(text: &str) -> (r: Option<Vec<u8>>)
    ensures
        r is Some <==> exists|v: Seq<u8>| base64_standard(v) == text@,
        r matches Some(w) ==> base64_standard(w@) == text@,
        r matches Some(w) ==> forall|v: Seq<u8>| base64_standard(v) == text@ ==> v == w@,
{
    base64::engine::general_purpose::STANDARD.decode(text).ok()
}

/// `URL_SAFE_NO_PAD.encode(bytes)` of the base64 crate.
///
/// Trusted: the result is the unpadded URL-safe base64 text of the bytes; it
/// has `ceil(4n/3)` characters for `n` bytes, all from the URL-safe alphabet.
#[verifier::external_body]
pub(crate) fn base64_url_encode(bytes: &[u8]) -> (r: String)
    ensures
        r@ == base64_url_unpadded(bytes@),
        r@.len() == (4 * bytes@.len() + 2) / 3,
        forall|i: int| 0 <= i < r@.len() ==> is_url_safe_char(#[trigger] r@[i]),
{
    base64::engine::general_purpose::URL_SAFE_NO_PAD.encode(bytes)
}

/// `Sha256::digest(bytes)` of the sha2 crate.
///
/// Trusted: the result is the 32-byte SHA-256 digest of the bytes.
#[verifier::external_body]
pub(crate) fn sha256_digest(bytes: &[u8]) -> (r: Vec<u8>)
    ensures
        r@ == sha256(bytes@),
        r@.len() == 32,
{
    sha2::Sha256::digest(bytes).to_vec()
}

/// The name/value pairs, taken by their text.
pub open spec fn pairs_view(pairs: Seq<(String, String)>) -> Seq<(Seq<char>, Seq<char>)> {
    pairs.map_values(|p: (String, String)| (p.0@, p.1@))
}

/// `form_urlencoded::Serializer::new(String::new()).extend_pairs(pairs).finish()`
/// of the url crate.
///
/// Trusted: the result is the form body of the pairs, in order.
#[verifier::external_body]
pub(crate) fn form_urlencode(pairs: &Vec<(String, String)>) -> (r: String)
    ensures
        r@ == form_urlencoded(pairs_view(pairs@)),
{
    url::form_urlencoded::Serializer::new(String::new()).extend_pairs(pairs.iter()).finish()
}

} // verus!
