//! RFC 9449 DPoP (Demonstrating Proof-of-Possession): the P-256 key pair a
//! key-bound session proves possession of, its RFC 7638 JWK thumbprint, and
//! the proof JWTs signed with it. The JSON, base64 and ECDSA work is done by
//! jsonwebtoken and the RustCrypto crates.

use vstd::prelude::*;
use crate::encoding::{base64_url_encode, base64_url_unpadded, sha256, sha256_digest, is_url_safe_char};
use crate::text::string_bytes;
use vstd::utf8::encode_utf8;
use p256::pkcs8::{DecodePrivateKey, EncodePrivateKey};
use jsonwebtoken::jwk::{AlgorithmParameters, EllipticCurve, EllipticCurveKeyParameters, EllipticCurveKeyType, Jwk};
use jsonwebtoken::{Algorithm, EncodingKey, Header};

verus! {

/// The JOSE `typ` header value of DPoP proof JWTs (RFC 9449 section 4.2).
pub const DPOP_JWT_TYP: &'static str = "dpop+jwt";

/// The JOSE `alg` header value of DPoP proof JWTs: ECDSA over P-256 with
/// SHA-256, the algorithm of a [`DpopKeyPair`].
pub const DPOP_JWT_ALG: &'static str = "ES256";

/// Why a DPoP operation failed.
#[derive(Debug)]
pub enum DpopError {
    /// The public JWK has no `x` coordinate.
    MissingX,
    /// The public JWK has no `y` coordinate.
    MissingY,
    /// Encoding or decoding the key failed; the text describes how.
    Key(String),
}

impl DpopError {
    /// The message of the error.
    pub open spec fn describe(&self) -> Seq<char> {
        match self {
            DpopError::MissingX => "EC JWK missing x coordinate"@,
            DpopError::MissingY => "EC JWK missing y coordinate"@,
            DpopError::Key(m) => m@,
        }
    }

    /// The message of the error.
    pub fn to_string(&self) -> (r: String)
        ensures
            r@ == self.describe(),
    {
        match self {
            DpopError::MissingX => String::from_str("EC JWK missing x coordinate"),
            DpopError::MissingY => String::from_str("EC JWK missing y coordinate"),
            DpopError::Key(m) => m.clone(),
        }
    }
}

/// The RFC 7638 canonical form of a P-256 public JWK with coordinates `x` and
/// `y`: exactly the required members, in lexicographic order, without
/// insignificant whitespace.
pub open spec fn canonical_jwk(x: Seq<char>, y: Seq<char>) -> Seq<char> {
    "{\"crv\":\"P-256\",\"kty\":\"EC\",\"x\":\""@ + x + "\",\"y\":\""@ + y + "\"}"@
}

/// The RFC 7638 thumbprint of the P-256 public JWK with coordinates `x` and
/// `y`: the URL-safe base64 of the SHA-256 of its canonical form.
pub open spec fn jwk_thumbprint_of(x: Seq<char>, y: Seq<char>) -> Seq<char> {
    base64_url_unpadded(sha256(encode_utf8(canonical_jwk(x, y))))
}

/// The RFC 7638 thumbprint of the P-256 public JWK with coordinates `x` and
/// `y`. It is 43 characters of the URL-safe base64 alphabet.
pub fn jwk_thumbprint(x: &str, y: &str) -> (r: String)
    ensures
        r@ == jwk_thumbprint_of(x@, y@),
        r@.len() == 43,
        forall|i: int| 0 <= i < r@.len() ==> is_url_safe_char(#[trigger] r@[i]),
{
    let mut canonical = String::from_str("{\"crv\":\"P-256\",\"kty\":\"EC\",\"x\":\"");
    canonical.append(x);
    canonical.append("\",\"y\":\"");
    canonical.append(y);
    canonical.append("\"}");
    let bytes = string_bytes(&canonical);
    let digest = sha256_digest(bytes.as_slice());
    base64_url_encode(digest.as_slice())
}

/// The `c_s256` claim binding a proof to an authorization or device code: the
/// URL-safe base64 of the SHA-256 of the code.
pub open spec fn c_s256_of(code: Seq<char>) -> Seq<char> {
    base64_url_unpadded(sha256(encode_utf8(code)))
}

/// The `c_s256` claim for `code`.
pub fn dpop_c_s256(code: &str) -> (r: String)
    ensures
        r@ == c_s256_of(code@),
{
    let s = String::from_str(code);
    let bytes = string_bytes(&s);
    let digest = sha256_digest(bytes.as_slice());
    base64_url_encode(digest.as_slice())
}

/// The claims of a DPoP proof (RFC 9449 section 4.2).
#[derive(Debug)]
pub struct DpopClaims {
    /// The HTTP method of the request.
    pub htm: String,
    /// The URL of the request.
    pub htu: String,
    /// When the proof was made, in seconds since the Unix epoch.
    pub iat: i64,
    /// A unique identifier of the proof.
    pub jti: String,
    /// The hash of the code being exchanged, for code and device-code grants.
    pub c_s256: Option<String>,
}

/// The claims of a proof for a request `htm` to `htu`, made at `iat` with the
/// fresh identifier `jti`; `code` is the authorization or device code being
/// exchanged, when there is one (a refresh grant carries none).
pub fn proof_claims(htm: &str, htu: &str, iat: i64, jti: String, code: Option<&str>) -> (r: DpopClaims)
    ensures
        r.htm@ == htm@,
        r.htu@ == htu@,
        r.iat == iat,
        r.jti@ == jti@,
        match code {
            Some(c) => r.c_s256 matches Some(h) && h@ == c_s256_of(c@),
            None => r.c_s256 is None,
        },
{
    let c_s256 = match code {
        Some(c) => Some(dpop_c_s256(c)),
        None => None,
    };
    DpopClaims { htm: String::from_str(htm), htu: String::from_str(htu), iat, jti, c_s256 }
}

/// The order `n` of the P-256 group: a secret scalar lies in `[1, n - 1]`.
pub open spec fn p256_order() -> int {
    0xFFFFFFFF00000000FFFFFFFFFFFFFFFFBCE6FAADA7179E84F3B9CAC2FC632551int
}

/// The value of `bytes` read as a big-endian unsigned integer.
pub open spec fn be_value(bytes: Seq<u8>) -> nat
    decreases bytes.len(),
{
    if bytes.len() == 0 {
        0
    } else {
        be_value(bytes.drop_last()) * 256 + bytes.last() as nat
    }
}

/// `bytes` is the 32-byte big-endian encoding of a P-256 secret scalar: a
/// value from 1 to `n - 1`.
pub open spec fn valid_p256_scalar(bytes: Seq<u8>) -> bool {
    &&& bytes.len() == 32
    &&& 1 <= be_value(bytes) < p256_order()
}

/// The PKCS#8 PEM document (LF line endings) of the P-256 secret key read
/// from `scalar` by `SecretKey::from_slice`, as `SecretKey::to_pkcs8_pem`
/// writes it.
pub uninterp spec fn pkcs8_pem_of(scalar: Seq<u8>) -> Seq<char>;

/// The `x` and `y` members of the public JWK of the P-256 key read from
/// `scalar` (`PublicKey::to_jwk`, turned into JSON by serde_json); `None`
/// where no JSON value came out.
pub uninterp spec fn jwk_coordinates_of(scalar: Seq<u8>) -> Option<(Option<Seq<char>>, Option<Seq<char>>)>;

/// The text of an optional string.
pub open spec fn opt_text(o: Option<String>) -> Option<Seq<char>> {
    match o {
        Some(s) => Some(s@),
        None => None,
    }
}

/// An EC (P-256) key pair used to prove possession of a DPoP-bound token,
/// held as the bytes of its secret scalar.
///
/// The same key pair is used for the authorization, token and refresh
/// requests of a session: the server compares the thumbprint of each proof's
/// key with the one recorded at authorization time.
pub struct DpopKeyPair {
    scalar: Vec<u8>,
}

impl View for DpopKeyPair {
    type V = Seq<u8>;

    /// The secret scalar.
    closed spec fn view(&self) -> Seq<u8> {
        self.scalar@
    }
}

/// A fresh random P-256 secret key (`SecretKey::random` with the operating
/// system's random source), as its scalar bytes (`to_bytes`).
///
/// Trusted: the bytes are the 32-byte big-endian encoding of a non-zero
/// scalar below the group order; which one is left unsaid, since it is random.
#[verifier::external_body]
fn random_scalar() -> (r: Vec<u8>)
    ensures
        valid_p256_scalar(r@),
{
    p256::SecretKey::random(&mut p256::elliptic_curve::rand_core::OsRng).to_bytes().to_vec()
}

/// `SecretKey::to_pkcs8_pem` with LF line endings, of the key with the given
/// scalar (read with `SecretKey::from_slice`), its error as text.
///
/// Trusted: a document that is written is the key's PKCS#8 PEM document, and
/// one is written for every valid scalar (the encoder fails only on lengths
/// a P-256 key cannot reach). The text of an error is left unsaid.
#[verifier::external_body]
fn scalar_to_pkcs8_pem(scalar: &[u8]) -> (r: Result<String, String>)
    ensures
        valid_p256_scalar(scalar@) ==> r is Ok,
        r matches Ok(p) ==> p@ == pkcs8_pem_of(scalar@),
{
    match p256::SecretKey::from_slice(scalar) {
        Ok(k) => match k.to_pkcs8_pem(p256::pkcs8::LineEnding::LF) {
            Ok(pem) => Ok(pem.to_string()),
            Err(e) => Err(e.to_string()),
        },
        Err(e) => Err(e.to_string()),
    }
}

/// `SecretKey::from_pkcs8_pem`, the key taken as its scalar bytes
/// (`to_bytes`), its error as text.
///
/// Trusted: a key that is read is a valid scalar; the document that
/// `to_pkcs8_pem` writes for a valid scalar reads back as that scalar. Which
/// other documents are read, and the text of an error, are left unsaid.
#[verifier::external_body]
fn scalar_from_pkcs8_pem(pem: &str) -> (r: Result<Vec<u8>, String>)
    ensures
        (exists|s: Seq<u8>| valid_p256_scalar(s) && pkcs8_pem_of(s) == pem@) ==> r is Ok,
        r matches Ok(w) ==> valid_p256_scalar(w@),
        r matches Ok(w) ==> forall|s: Seq<u8>|
            valid_p256_scalar(s) && pkcs8_pem_of(s) == pem@ ==> s == w@,
{
    match p256::SecretKey::from_pkcs8_pem(pem) {
        Ok(k) => Ok(k.to_bytes().to_vec()),
        Err(e) => Err(e.to_string()),
    }
}

/// The `x` and `y` members of the public JWK of the key with the given
/// scalar: `PublicKey::to_jwk`, turned into JSON by serde_json; a scalar that
/// `SecretKey::from_slice` refuses, or a failure to make the JSON value, is
/// an error, its text left unsaid.
///
/// Trusted: the result is named; it depends on the scalar alone. For a valid
/// scalar the JWK is made and serialized with both coordinates as strings.
#[verifier::external_body]
fn jwk_coordinates(scalar: &[u8]) -> (r: Result<(Option<String>, Option<String>), String>)
    ensures
        r matches Ok(c) ==> jwk_coordinates_of(scalar@) == Some((opt_text(c.0), opt_text(c.1))),
        r is Err ==> jwk_coordinates_of(scalar@) is None,
        valid_p256_scalar(scalar@) ==> r is Ok,
        r matches Ok(c) ==> (valid_p256_scalar(scalar@) ==> c.0 is Some && c.1 is Some),
{
    let key = match p256::SecretKey::from_slice(scalar) {
        Ok(k) => k,
        Err(e) => return Err(e.to_string()),
    };
    match serde_json::to_value(key.public_key().to_jwk()) {
        Ok(v) => Ok((v.get("x").and_then(|c| c.as_str()).map(String::from), v.get("y").and_then(|c| c.as_str()).map(String::from))),
        Err(e) => Err(e.to_string()),
    }
}

/// The public JWK carried in a proof header: an EC key on P-256 with its two
/// coordinates. It has no private member.
pub struct PublicJwk {
    pub kty: String,
    pub crv: String,
    pub x: String,
    pub y: String,
}

/// The JOSE header of a DPoP proof JWT (RFC 9449 section 4.2).
pub struct ProofHeader {
    pub typ: String,
    pub alg: String,
    pub jwk: PublicJwk,
}

impl DpopKeyPair {
    /// A key pair holds a valid P-256 secret scalar.
    #[verifier::type_invariant]
    spec fn holds_valid_scalar(self) -> bool {
        valid_p256_scalar(self.scalar@)
    }

    /// A new random P-256 key pair.
    pub fn generate() -> (r: Self)
        ensures
            valid_p256_scalar(r@),
    {
        DpopKeyPair { scalar: random_scalar() }
    }

    /// The private key as a PKCS#8 PEM document with LF line endings.
    pub fn to_pkcs8_pem(&self) -> (r: Result<String, DpopError>)
        ensures
            r matches Ok(p) && p@ == pkcs8_pem_of(self@),
    {
        proof {
            use_type_invariant(self);
        }
        match scalar_to_pkcs8_pem(self.scalar.as_slice()) {
            Ok(pem) => Ok(pem),
            Err(e) => Err(DpopError::Key(e)),
        }
    }

    /// The key pair a PKCS#8 PEM document holds. The document written by
    /// [`Self::to_pkcs8_pem`] for a key pair reads back as that key pair; a
    /// document that cannot be read is a key error. Which documents written
    /// elsewhere are read is decided by the PKCS#8 decoder.
    pub fn from_pkcs8_pem(pem: &str) -> (r: Result<Self, DpopError>)
        ensures
            forall|s: Seq<u8>| valid_p256_scalar(s) && pkcs8_pem_of(s) == pem@ ==> (r matches Ok(k) && k@ == s),
            r matches Ok(k) ==> valid_p256_scalar(k@),
            r matches Err(e) ==> e is Key,
    {
        match scalar_from_pkcs8_pem(pem) {
            Ok(scalar) => Ok(DpopKeyPair { scalar }),
            Err(e) => Err(DpopError::Key(e)),
        }
    }

    /// The header of a proof signed with this key pair: `typ` `dpop+jwt`,
    /// `alg` `ES256`, and the public JWK (`kty` `EC`, `crv` `P-256` and the
    /// key's coordinates, without the private `d`).
    pub fn proof_header(&self) -> (r: Result<ProofHeader, DpopError>)
        ensures
            r is Ok,
            r matches Ok(h) ==> h.typ@ == DPOP_JWT_TYP@ && h.alg@ == DPOP_JWT_ALG@ && h.jwk.kty@ == "EC"@
                && h.jwk.crv@ == "P-256"@ && jwk_coordinates_of(self@) == Some((Some(h.jwk.x@), Some(h.jwk.y@))),
    {
        proof {
            use_type_invariant(self);
        }
        match jwk_coordinates(self.scalar.as_slice()) {
            Err(e) => Err(DpopError::Key(e)),
            Ok((x, y)) => match x {
                None => Err(DpopError::MissingX),
                Some(x) => match y {
                    None => Err(DpopError::MissingY),
                    Some(y) => {
                        let jwk = PublicJwk {
                            kty: String::from_str("EC"),
                            crv: String::from_str("P-256"),
                            x,
                            y,
                        };
                        Ok(ProofHeader { typ: String::from_str(DPOP_JWT_TYP), alg: String::from_str(DPOP_JWT_ALG), jwk })
                    },
                },
            },
        }
    }

    /// The RFC 7638 thumbprint of the public key (the `dpop_jkt` parameter):
    /// the thumbprint of the public JWK's coordinates, 43 URL-safe base64
    /// characters. An error names the coordinate the JWK lacks, or carries
    /// the text of a failure to serialize it; for a key pair neither occurs.
    /// Equal key pairs have equal thumbprints.
    pub fn thumbprint(&self) -> (r: Result<String, DpopError>)
        ensures
            match jwk_coordinates_of(self@) {
                Some((Some(x), Some(y))) => r matches Ok(t) && t@ == jwk_thumbprint_of(x, y),
                Some((None, _)) => r matches Err(DpopError::MissingX),
                Some((Some(_), None)) => r matches Err(DpopError::MissingY),
                None => r matches Err(DpopError::Key(_)),
            },
            r is Ok,
            r matches Ok(t) ==> t@.len() == 43,
            r matches Ok(t) ==> forall|i: int| 0 <= i < t@.len() ==> is_url_safe_char(#[trigger] t@[i]),
    {
        proof {
            use_type_invariant(self);
        }
        match jwk_coordinates(self.scalar.as_slice()) {
            Err(e) => Err(DpopError::Key(e)),
            Ok((x, y)) => match x {
                None => Err(DpopError::MissingX),
                Some(x) => match y {
                    None => Err(DpopError::MissingY),
                    Some(y) => Ok(jwk_thumbprint(x.as_str(), y.as_str())),
                },
            },
        }
    }
}

/// A compact JWS: the signing input `input`, a dot, and the signature text
/// `sig`.
pub open spec fn jws_with(input: Seq<char>, sig: Seq<char>) -> Seq<char> {
    input + "."@ + sig
}

/// The signing input that `jsonwebtoken::encode` writes for an ES256 proof:
/// the URL-safe base64 of the JSON header (`typ`, `alg` `ES256`, and the
/// public JWK: `kty` `EC`, `crv` `P-256`, `x`, `y`), a dot, and the URL-safe
/// base64 of the JSON claims (`htm`, `htu`, `iat`, `jti`, then `c_s256` when
/// there is one).
pub uninterp spec fn es256_signing_input(
    typ: Seq<char>,
    x: Seq<char>,
    y: Seq<char>,
    htm: Seq<char>,
    htu: Seq<char>,
    iat: int,
    jti: Seq<char>,
    c_s256: Option<Seq<char>>,
) -> Seq<char>;

/// The `x` coordinate of the public JWK of the key with secret scalar `scalar`.
pub open spec fn key_jwk_x(scalar: Seq<u8>) -> Seq<char> {
    match jwk_coordinates_of(scalar) {
        Some((Some(x), _)) => x,
        _ => Seq::empty(),
    }
}

/// The `y` coordinate of the public JWK of the key with secret scalar `scalar`.
pub open spec fn key_jwk_y(scalar: Seq<u8>) -> Seq<char> {
    match jwk_coordinates_of(scalar) {
        Some((_, Some(y))) => y,
        _ => Seq::empty(),
    }
}

/// The `c_s256` claim of a proof exchanging `code`, when there is one.
pub open spec fn c_s256_opt(code: Option<&str>) -> Option<Seq<char>> {
    match code {
        Some(c) => Some(c_s256_of(c@)),
        None => None,
    }
}

/// `t` is a reading of the clock: a value [`now_unix_seconds`] returns.
pub closed spec fn clock_reading(t: i64) -> bool {
    call_ensures(now_unix_seconds, (), t)
}

/// `id` is a fresh identifier: the text of a value [`fresh_jti`] returns.
pub closed spec fn fresh_identifier(id: Seq<char>) -> bool {
    exists|s: String| s@ == id && call_ensures(fresh_jti, (), s)
}

/// The current time in seconds since the Unix epoch (`chrono::Utc::now`).
///
/// Trusted: nothing is stated of the value, which is the clock's.
#[verifier::external_body]
fn now_unix_seconds() -> (r: i64) {
    chrono::Utc::now().timestamp()
}

/// A fresh random UUID (`uuid::Uuid::new_v4`) in its hyphenated text form.
///
/// Trusted: the text has 36 characters; which UUID it is is left unsaid,
/// since it is random.
#[verifier::external_body]
fn fresh_jti() -> (r: String)
    ensures
        r@.len() == 36,
{
    uuid::Uuid::new_v4().to_string()
}

#[verifier::external_type_specification]
#[verifier::external_body]
pub struct ExEncodingKey(jsonwebtoken::EncodingKey);

/// `EncodingKey::from_ec_pem`: the signing key of a PKCS#8 PEM document;
/// errors as text.
///
/// Trusted: nothing is stated of the key, which is opaque, nor of when
/// reading fails.
#[verifier::external_body]
fn ec_encoding_key(pem: &str) -> (r: Result<EncodingKey, String>) {
    EncodingKey::from_ec_pem(pem.as_bytes()).map_err(|e| e.to_string())
}

/// `jsonwebtoken::encode` of an ES256 proof whose header has `typ` and the EC
/// P-256 public JWK with coordinates `x` and `y` (the default `kty` and `crv`
/// of jsonwebtoken's EC key parameters), with the claims `htm`, `htu`, `iat`,
/// `jti` and, when there is one, `c_s256`, in that order, signed with `key`;
/// errors as text.
///
/// Trusted: a JWT that comes out is the signing input named by
/// [`es256_signing_input`], a dot, and a signature. The signature is random
/// (ECDSA), so which one is left unsaid; so is whether signing succeeds and
/// the text of an error.
#[verifier::external_body]
fn sign_es256(
    typ: String,
    x: String,
    y: String,
    htm: String,
    htu: String,
    iat: i64,
    jti: String,
    c_s256: Option<String>,
    key: &EncodingKey,
) -> (r: Result<String, String>)
    ensures
        r matches Ok(j) ==> exists|sig: Seq<char>| j@ == #[trigger] jws_with(
            es256_signing_input(typ@, x@, y@, htm@, htu@, iat as int, jti@, opt_text(c_s256)),
            sig,
        ),
{
    let ec = AlgorithmParameters::EllipticCurve(EllipticCurveKeyParameters { x, y, ..Default::default() });
    let jwk = Jwk { common: Default::default(), algorithm: ec };
    let header = Header { typ: Some(typ), jwk: Some(jwk), ..Header::new(Algorithm::ES256) };
    let mut body = serde_json::Map::from_iter([
        ("htm".into(), htm.into()),
        ("htu".into(), htu.into()),
        ("iat".into(), iat.into()),
        ("jti".into(), jti.into()),
    ]);
    body.extend(c_s256.map(|c| ("c_s256".into(), c.into())));
    jsonwebtoken::encode(&header, &body, key).map_err(|e| e.to_string())
}

/// A signed DPoP proof JWT (RFC 9449 section 4.2) for one request `htm` to
/// `htu`; `code` is the authorization or device code being exchanged, and
/// `None` for a refresh grant. The header carries `typ` `dpop+jwt`, `alg`
/// `ES256` and the key's public JWK; the claims carry the request, the
/// current time as `iat`, a fresh 36-character UUID as `jti`, and `c_s256`
/// exactly when a code is given. `iat` and `jti` are made anew on every call
/// and cannot be passed in. Signing errors are key errors.
pub fn build_proof(key: &DpopKeyPair, htm: &str, htu: &str, code: Option<&str>) -> (r: Result<String, DpopError>)
    ensures
        r matches Ok(j) ==> exists|x: Seq<char>, y: Seq<char>, iat: int, jti: Seq<char>, sig: Seq<char>|
            jwk_coordinates_of(key@) == Some((Some(x), Some(y))) && i64::MIN <= iat <= i64::MAX && jti.len() == 36
                && j@ == #[trigger] jws_with(
                es256_signing_input(DPOP_JWT_TYP@, x, y, htm@, htu@, iat, jti, c_s256_opt(code)),
                sig,
            ),
        r matches Ok(j) ==> exists|iat: i64, jti: Seq<char>, sig: Seq<char>|
            clock_reading(iat) && fresh_identifier(jti) && jti.len() == 36 && j@ == #[trigger] jws_with(
                es256_signing_input(DPOP_JWT_TYP@, key_jwk_x(key@), key_jwk_y(key@), htm@, htu@, iat as int, jti, c_s256_opt(code)),
                sig,
            ),
        r matches Err(e) ==> e is Key,
{
    let header = match key.proof_header() {
        Ok(h) => h,
        Err(e) => {
            return Err(DpopError::Key(e.to_string()));
        },
    };
    let clock = now_unix_seconds;
    let iat = clock();
    let identifier = fresh_jti;
    let jti = identifier();
    assert(clock_reading(iat));
    assert(fresh_identifier(jti@));
    let ghost jti_text = jti@;
    let claims = proof_claims(htm, htu, iat, jti, code);
    let pem = match key.to_pkcs8_pem() {
        Ok(p) => p,
        Err(e) => {
            return Err(DpopError::Key(e.to_string()));
        },
    };
    let signing_key = match ec_encoding_key(pem.as_str()) {
        Ok(k) => k,
        Err(e) => {
            return Err(DpopError::Key(e));
        },
    };
    let DpopClaims { htm, htu, iat, jti, c_s256 } = claims;
    let ProofHeader { typ, alg: _, jwk } = header;
    assert(opt_text(c_s256) == c_s256_opt(code));
    assert(key_jwk_x(key@) == jwk.x@ && key_jwk_y(key@) == jwk.y@);
    match sign_es256(typ, jwk.x, jwk.y, htm, htu, iat, jti, c_s256, &signing_key) {
        Ok(j) => Ok(j),
        Err(e) => Err(DpopError::Key(e)),
    }
}

} // verus!
