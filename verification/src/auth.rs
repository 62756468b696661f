//! Request authentication: a shared bearer token, or a presigned token
//! `<payload>.<signature>` signed with Ed25519.

use crate::config::AuthConfig;
use crate::text::{
    chars_of, copy_opt, find_from, first_match, opt_view, same_chars, same_text, slice_of,
    string_of, upper_case, upper_cased,
};
use vstd::prelude::*;

verus! {

/// Why a request was not authenticated, or why key material was refused.
#[derive(Debug, Clone, Copy, PartialEq, Eq)]
pub enum AuthError {
    MalformedSignature,
    MalformedPayload,
    InvalidSignature,
    UnsupportedVersion,
    Expired,
    MethodMismatch,
    BucketMismatch,
    PathMismatch,
    InvalidKeyMaterial,
    KeyMismatch,
    MissingAuth,
    InvalidBearer,
    BearerNotConfigured,
}

/// The credential form that authenticated a request.
#[derive(Clone, Copy, Debug, PartialEq, Eq)]
pub enum AuthMethod {
    Bearer,
    Presign,
}

/// What authentication leaves for the handlers.
#[derive(Clone, Debug)]
pub struct AuthContext {
    pub method: AuthMethod,
}

/// The claims that a presigned token carries.
#[derive(Debug, Clone)]
pub struct PresignPayload {
    pub version: u8,
    pub expiry: i64,
    pub method: String,
    pub bucket_id: String,
    pub path: String,
}

/// The claims of a presigned token, as mathematical values.
pub struct PresignClaims {
    pub version: u8,
    pub expiry: i64,
    pub method: Seq<char>,
    pub bucket_id: Seq<char>,
    pub path: Seq<char>,
}

impl View for PresignPayload {
    type V = PresignClaims;

    open spec fn view(&self) -> PresignClaims {
        PresignClaims {
            version: self.version,
            expiry: self.expiry,
            method: self.method@,
            bucket_id: self.bucket_id@,
            path: self.path@,
        }
    }
}

/// The verifying public key and the optional bearer token.
#[derive(Clone, Debug)]
pub struct AuthState {
    public_key: Vec<u8>,
    bearer_token: Option<String>,
}

/// An `AuthState` as mathematical values.
pub struct AuthKeys {
    pub public_key: Seq<u8>,
    pub bearer_token: Option<Seq<char>>,
}

impl View for AuthState {
    type V = AuthKeys;

    closed spec fn view(&self) -> AuthKeys {
        AuthKeys { public_key: self.public_key@, bearer_token: opt_view(self.bearer_token) }
    }
}

/// `serde_json::Value`: a parsed JSON document, or a value in one.
#[verifier::external_type_specification]
#[verifier::external_body]
pub struct ExJsonValue(serde_json::Value);

/// What base64url without padding decodes `text` to, if it is valid.
pub uninterp spec fn base64url_decoded(text: Seq<char>) -> Option<Seq<u8>>;

/// What a JSON value is when read as a leaf: as an unsigned integer, as a
/// signed integer, and as text. Each is `None` where the value is nothing
/// of that sort.
pub type JsonLeaf = (Option<u64>, Option<i64>, Option<Seq<char>>);

/// The members of the JSON document that `bytes` hold, if they hold one.
/// A document that is no object has no members.
pub uninterp spec fn json_parsed(bytes: Seq<u8>) -> Option<Map<Seq<char>, JsonLeaf>>;

/// The members that a JSON value holds under their keys, each read as a
/// leaf. A value that is no object holds none.
pub uninterp spec fn json_members(doc: serde_json::Value) -> Map<Seq<char>, JsonLeaf>;

/// What a JSON value holds when read as a leaf.
pub uninterp spec fn json_leaf(value: serde_json::Value) -> JsonLeaf;

/// Whether 32 bytes are the encoding of an Ed25519 public key.
pub uninterp spec fn ed25519_key_is_valid(public: Seq<u8>) -> bool;

/// The encoded public key that belongs to a 32-byte Ed25519 secret key.
pub uninterp spec fn ed25519_public_of(secret: Seq<u8>) -> Seq<u8>;

/// Whether strict Ed25519 verification under the encoded key `public`
/// accepts the 64-byte `signature` for `message`.
pub uninterp spec fn ed25519_accepts(
    public: Seq<u8>,
    message: Seq<u8>,
    signature: Seq<u8>,
) -> bool;

/// `base64::Engine::decode` on the `URL_SAFE_NO_PAD` engine: the decoded
/// bytes, or `None` where the crate reports a decode error.
#[verifier::external_body]
fn decode_base64url(text: &str) -> (r: Option<Vec<u8>>)
    ensures
        r.is_some() == base64url_decoded(text@).is_some(),
        r matches Some(bytes) ==> bytes@ == base64url_decoded(text@).unwrap(),
{
    base64::Engine::decode(&base64::engine::general_purpose::URL_SAFE_NO_PAD, text).ok()
}

/// `serde_json::from_slice` at type `Value`: the document, or `None` where
/// the crate reports an error.
#[verifier::external_body]
fn parse_json(bytes: &Vec<u8>) -> (r: Option<serde_json::Value>)
    ensures
        match r {
            Some(doc) => json_parsed(bytes@) == Some(json_members(doc)),
            None => json_parsed(bytes@) is None,
        },
{
    serde_json::from_slice::<serde_json::Value>(bytes.as_slice()).ok()
}

/// `serde_json::Value::get` with a string index: the member under `key`,
/// or `None` for a missing key or a value that is no object.
#[verifier::external_body]
fn member<'a>(doc: &'a serde_json::Value, key: &str) -> (r: Option<&'a serde_json::Value>)
    ensures
        match r {
            Some(value) => json_members(*doc).contains_key(key@) && json_members(*doc)[key@]
                == json_leaf(*value),
            None => !json_members(*doc).contains_key(key@),
        },
{
    doc.get(key)
}

/// `serde_json::Value::as_u64`: the value, if it is an integer that fits
/// `u64`.
#[verifier::external_body]
fn as_u64(value: &serde_json::Value) -> (r: Option<u64>)
    ensures
        r == json_leaf(*value).0,
{
    value.as_u64()
}

/// `serde_json::Value::as_i64`: the value, if it is an integer that fits
/// `i64`.
#[verifier::external_body]
fn as_i64(value: &serde_json::Value) -> (r: Option<i64>)
    ensures
        r == json_leaf(*value).1,
{
    value.as_i64()
}

/// `serde_json::Value::as_str`, copied into an owned string: the text, if
/// the value is a string.
#[verifier::external_body]
fn as_text(value: &serde_json::Value) -> (r: Option<String>)
    ensures
        opt_view(r) == json_leaf(*value).2,
{
    value.as_str().map(str::to_string)
}

/// `ed25519_dalek::VerifyingKey::from_bytes`: whether the crate accepts
/// the 32 bytes as a public key.
#[verifier::external_body]
fn public_key_is_valid(public: &Vec<u8>) -> (r: bool)
    requires
        public.len() == 32,
    ensures
        r == ed25519_key_is_valid(public@),
{
    let bytes: [u8; 32] = public.as_slice().try_into().unwrap();
    ed25519_dalek::VerifyingKey::from_bytes(&bytes).is_ok()
}

/// `ed25519_dalek::SigningKey::from_bytes` followed by `verifying_key`:
/// the encoded public key derived from the 32-byte secret key.
#[verifier::external_body]
fn derive_public_key(secret: &Vec<u8>) -> (r: Vec<u8>)
    requires
        secret.len() == 32,
    ensures
        r@ == ed25519_public_of(secret@),
        r.len() == 32,
{
    let bytes: [u8; 32] = secret.as_slice().try_into().unwrap();
    ed25519_dalek::SigningKey::from_bytes(&bytes).verifying_key().to_bytes().to_vec()
}

/// `ed25519_dalek::VerifyingKey::verify_strict` under the key that
/// `public` encodes; `false` where the crate refuses the key or the
/// signature.
#[verifier::external_body]
fn signature_accepted(public: &Vec<u8>, message: &Vec<u8>, signature: &Vec<u8>) -> (r: bool)
    requires
        public.len() == 32,
        signature.len() == 64,
    ensures
        r == ed25519_accepts(public@, message@, signature@),
{
    let key: [u8; 32] = public.as_slice().try_into().unwrap();
    let sig: [u8; 64] = signature.as_slice().try_into().unwrap();
    match ed25519_dalek::VerifyingKey::from_bytes(&key) {
        Ok(k) => k.verify_strict(message, &ed25519_dalek::Signature::from_bytes(&sig)).is_ok(),
        Err(_) => false,
    }
}

/// `time::OffsetDateTime::now_utc` as Unix seconds. Nothing is promised of
/// the clock.
#[verifier::external_body]
pub(crate) fn unix_now() -> i64 {
    time::OffsetDateTime::now_utc().unix_timestamp()
}

impl AuthMethod {
    /// The label under which the credential form is logged.
    pub open spec fn label(self) -> Seq<char> {
        match self {
            AuthMethod::Bearer => "bearer"@,
            AuthMethod::Presign => "presign"@,
        }
    }

    pub fn as_str(&self) -> (r: &'static str)
        ensures
            r@ == self.label(),
    {
        match self {
            AuthMethod::Bearer => "bearer",
            AuthMethod::Presign => "presign",
        }
    }
}

impl AuthError {
    /// The sentence that describes the error.
    pub open spec fn text(self) -> Seq<char> {
        match self {
            AuthError::MalformedSignature => "malformed signature"@,
            AuthError::MalformedPayload => "malformed payload"@,
            AuthError::InvalidSignature => "invalid signature"@,
            AuthError::UnsupportedVersion => "unsupported version"@,
            AuthError::Expired => "expired signature"@,
            AuthError::MethodMismatch => "method mismatch"@,
            AuthError::BucketMismatch => "bucket mismatch"@,
            AuthError::PathMismatch => "path mismatch"@,
            AuthError::InvalidKeyMaterial => "invalid key material"@,
            AuthError::KeyMismatch => "public and private keys do not match"@,
            AuthError::MissingAuth => "missing auth"@,
            AuthError::InvalidBearer => "invalid bearer token"@,
            AuthError::BearerNotConfigured => "bearer token not configured"@,
        }
    }

    pub fn message(&self) -> (r: &'static str)
        ensures
            r@ == self.text(),
    {
        match self {
            AuthError::MalformedSignature => "malformed signature",
            AuthError::MalformedPayload => "malformed payload",
            AuthError::InvalidSignature => "invalid signature",
            AuthError::UnsupportedVersion => "unsupported version",
            AuthError::Expired => "expired signature",
            AuthError::MethodMismatch => "method mismatch",
            AuthError::BucketMismatch => "bucket mismatch",
            AuthError::PathMismatch => "path mismatch",
            AuthError::InvalidKeyMaterial => "invalid key material",
            AuthError::KeyMismatch => "public and private keys do not match",
            AuthError::MissingAuth => "missing auth",
            AuthError::InvalidBearer => "invalid bearer token",
            AuthError::BearerNotConfigured => "bearer token not configured",
        }
    }
}

/// The member `key`, as an unsigned integer.
pub open spec fn member_u64(members: Map<Seq<char>, JsonLeaf>, key: Seq<char>) -> Option<u64> {
    if members.contains_key(key) {
        members[key].0
    } else {
        None
    }
}

/// The member `key`, as a signed integer.
pub open spec fn member_i64(members: Map<Seq<char>, JsonLeaf>, key: Seq<char>) -> Option<i64> {
    if members.contains_key(key) {
        members[key].1
    } else {
        None
    }
}

/// The member `key`, as text.
pub open spec fn member_text(members: Map<Seq<char>, JsonLeaf>, key: Seq<char>) -> Option<
    Seq<char>,
> {
    if members.contains_key(key) {
        members[key].2
    } else {
        None
    }
}

/// The claims that the members of a JSON object give: the integer
/// members `v` (at most 255) and `exp` and the string members `m`, `b`
/// and `p`. Other members are ignored.
pub open spec fn claims_of(members: Map<Seq<char>, JsonLeaf>) -> Option<PresignClaims> {
    match (
        member_u64(members, "v"@),
        member_i64(members, "exp"@),
        member_text(members, "m"@),
        member_text(members, "b"@),
        member_text(members, "p"@),
    ) {
        (Some(v), Some(exp), Some(m), Some(b), Some(p)) => if v <= 255 {
            Some(PresignClaims { version: v as u8, expiry: exp, method: m, bucket_id: b, path: p })
        } else {
            None
        },
        _ => None,
    }
}

/// The claims that the payload bytes hold: those of the JSON object that
/// the bytes are.
pub open spec fn payload_of(bytes: Seq<u8>) -> Option<PresignClaims> {
    match json_parsed(bytes) {
        None => None,
        Some(members) => claims_of(members),
    }
}

fn read_u64(doc: &serde_json::Value, key: &str) -> (r: Option<u64>)
    ensures
        r == member_u64(json_members(*doc), key@),
{
    match member(doc, key) {
        Some(value) => as_u64(value),
        None => None,
    }
}

fn read_i64(doc: &serde_json::Value, key: &str) -> (r: Option<i64>)
    ensures
        r == member_i64(json_members(*doc), key@),
{
    match member(doc, key) {
        Some(value) => as_i64(value),
        None => None,
    }
}

fn read_text(doc: &serde_json::Value, key: &str) -> (r: Option<String>)
    ensures
        opt_view(r) == member_text(json_members(*doc), key@),
{
    match member(doc, key) {
        Some(value) => as_text(value),
        None => None,
    }
}

/// Reads the claims out of the payload bytes of a presigned token.
pub fn parse_payload(bytes: &Vec<u8>) -> (r: Option<PresignPayload>)
    ensures
        match r {
            Some(payload) => payload_of(bytes@) == Some(payload@),
            None => payload_of(bytes@) is None,
        },
{
    let doc = match parse_json(bytes) {
        Some(doc) => doc,
        None => { return None; },
    };
    let version = match read_u64(&doc, "v") {
        Some(v) => v,
        None => { return None; },
    };
    let expiry = match read_i64(&doc, "exp") {
        Some(e) => e,
        None => { return None; },
    };
    let method = match read_text(&doc, "m") {
        Some(m) => m,
        None => { return None; },
    };
    let bucket_id = match read_text(&doc, "b") {
        Some(b) => b,
        None => { return None; },
    };
    let path = match read_text(&doc, "p") {
        Some(p) => p,
        None => { return None; },
    };
    if version > 255 {
        return None;
    }
    Some(PresignPayload { version: version as u8, expiry, method, bucket_id, path })
}

/// What the claims say of a request at time `now`: the first check that
/// fails, in the order version, expiry, method, bucket, path. Methods are
/// compared in upper case.
pub open spec fn claims_outcome(
    claims: PresignClaims,
    now: i64,
    method: Seq<char>,
    bucket_id: Seq<char>,
    path: Seq<char>,
) -> Result<(), AuthError> {
    if claims.version != 1 {
        Err(AuthError::UnsupportedVersion)
    } else if claims.expiry < now {
        Err(AuthError::Expired)
    } else if upper_case(claims.method) != upper_case(method) {
        Err(AuthError::MethodMismatch)
    } else if claims.bucket_id != bucket_id {
        Err(AuthError::BucketMismatch)
    } else if claims.path != path {
        Err(AuthError::PathMismatch)
    } else {
        Ok(())
    }
}

/// Checks the claims of a token against the request and the time `now`.
pub fn check_claims(
    payload: &PresignPayload,
    now: i64,
    method: &str,
    bucket_id: &str,
    path: &str,
) -> (r: Result<(), AuthError>)
    ensures
        r == claims_outcome(payload@, now, method@, bucket_id@, path@),
{
    if payload.version != 1 {
        return Err(AuthError::UnsupportedVersion);
    }
    if payload.expiry < now {
        return Err(AuthError::Expired);
    }
    let claimed = upper_cased(payload.method.as_str());
    let asked = upper_cased(method);
    if !same_chars(&claimed, &asked) {
        return Err(AuthError::MethodMismatch);
    }
    if !same_text(payload.bucket_id.as_str(), bucket_id) {
        return Err(AuthError::BucketMismatch);
    }
    if !same_text(payload.path.as_str(), path) {
        return Err(AuthError::PathMismatch);
    }
    Ok(())
}

/// The payload bytes and the claims that a token `<payload>.<signature>`
/// carries: the text before the first `.` decodes to the bytes, and the
/// bytes hold the claims.
pub open spec fn token_payload(sig: Seq<char>) -> Result<(Seq<u8>, PresignClaims), AuthError> {
    let dot = first_match(sig, Some('.'));
    if dot >= sig.len() {
        Err(AuthError::MalformedSignature)
    } else {
        match base64url_decoded(sig.take(dot)) {
            None => Err(AuthError::MalformedPayload),
            Some(bytes) => match payload_of(bytes) {
                None => Err(AuthError::MalformedPayload),
                Some(claims) => Ok((bytes, claims)),
            },
        }
    }
}

/// The signature bytes of a token: the text after the first `.`, decoded;
/// they must be 64 bytes.
pub open spec fn token_signature(sig: Seq<char>) -> Option<Seq<u8>> {
    let dot = first_match(sig, Some('.'));
    match base64url_decoded(sig.skip(dot + 1)) {
        Some(bytes) => if bytes.len() == 64 {
            Some(bytes)
        } else {
            None
        },
        None => None,
    }
}

/// What verification of a presigned token answers: decode, parse, check
/// the claims, then verify the signature over the raw payload bytes.
pub open spec fn token_outcome(
    public_key: Seq<u8>,
    now: i64,
    method: Seq<char>,
    bucket_id: Seq<char>,
    path: Seq<char>,
    sig: Seq<char>,
) -> Result<(), AuthError> {
    match token_payload(sig) {
        Err(e) => Err(e),
        Ok((bytes, claims)) => match claims_outcome(claims, now, method, bucket_id, path) {
            Err(e) => Err(e),
            Ok(_) => match token_signature(sig) {
                None => Err(AuthError::MalformedSignature),
                Some(signature) => if ed25519_accepts(public_key, bytes, signature) {
                    Ok(())
                } else {
                    Err(AuthError::InvalidSignature)
                },
            },
        },
    }
}

/// What a bearer token is answered with.
pub open spec fn bearer_outcome(expected: Option<Seq<char>>, token: Seq<char>) -> Result<
    (),
    AuthError,
> {
    match expected {
        None => Err(AuthError::BearerNotConfigured),
        Some(e) => if token == e {
            Ok(())
        } else {
            Err(AuthError::InvalidBearer)
        },
    }
}

/// What key material is answered with: both keys must decode to 32
/// bytes, the public key must be a valid key, and it must be the one that
/// the private key derives.
pub open spec fn key_outcome(public_key: Seq<char>, private_key: Seq<char>) -> Result<
    Seq<u8>,
    AuthError,
> {
    match (base64url_decoded(public_key), base64url_decoded(private_key)) {
        (Some(public), Some(secret)) => if public.len() != 32 || secret.len() != 32
            || !ed25519_key_is_valid(public) {
            Err(AuthError::InvalidKeyMaterial)
        } else if ed25519_public_of(secret) != public {
            Err(AuthError::KeyMismatch)
        } else {
            Ok(public)
        },
        _ => Err(AuthError::InvalidKeyMaterial),
    }
}

fn decode_key(input: &str) -> (r: Result<Vec<u8>, AuthError>)
    ensures
        match r {
            Ok(bytes) => base64url_decoded(input@) == Some(bytes@),
            Err(e) => e == AuthError::InvalidKeyMaterial && base64url_decoded(input@) is None,
        },
{
    match decode_base64url(input) {
        Some(bytes) => Ok(bytes),
        None => Err(AuthError::InvalidKeyMaterial),
    }
}

fn same_bytes(a: &Vec<u8>, b: &Vec<u8>) -> (r: bool)
    ensures
        r == (a@ == b@),
{
    if a.len() != b.len() {
        return false;
    }
    let mut i: usize = 0;
    while i < a.len()
        invariant
            i <= a.len(),
            a.len() == b.len(),
            a@.take(i as int) == b@.take(i as int),
        decreases a.len() - i,
    {
        if a[i] != b[i] {
            return false;
        }
        assert(a@.take(i + 1) =~= a@.take(i as int).push(a@[i as int]));
        assert(b@.take(i + 1) =~= b@.take(i as int).push(b@[i as int]));
        i += 1;
    }
    assert(a@ =~= a@.take(a.len() as int));
    assert(b@ =~= b@.take(b.len() as int));
    true
}

impl AuthState {
    /// The public key is 32 bytes long.
    pub open spec fn wf(&self) -> bool {
        self@.public_key.len() == 32
    }

    /// Decodes the configured key pair and keeps the public key, provided
    /// that the private key derives it.
    pub fn from_config(config: &AuthConfig) -> (r: Result<Self, AuthError>)
        ensures
            match r {
                Ok(state) => state.wf() && key_outcome(config.public_key@, config.private_key@)
                    == Ok::<Seq<u8>, AuthError>(state@.public_key) && state@.bearer_token
                    == opt_view(config.bearer_token),
                Err(e) => key_outcome(config.public_key@, config.private_key@) == Err::<
                    Seq<u8>,
                    AuthError,
                >(e),
            },
    {
        let public_bytes = match decode_key(config.public_key.as_str()) {
            Ok(bytes) => bytes,
            Err(e) => { return Err(e); },
        };
        let private_bytes = match decode_key(config.private_key.as_str()) {
            Ok(bytes) => bytes,
            Err(e) => { return Err(e); },
        };
        if public_bytes.len() != 32 || !public_key_is_valid(&public_bytes) {
            return Err(AuthError::InvalidKeyMaterial);
        }
        if private_bytes.len() != 32 {
            return Err(AuthError::InvalidKeyMaterial);
        }
        let derived = derive_public_key(&private_bytes);
        if !same_bytes(&derived, &public_bytes) {
            return Err(AuthError::KeyMismatch);
        }
        Ok(AuthState { public_key: public_bytes, bearer_token: copy_opt(&config.bearer_token) })
    }

    /// Verifies the presigned token `sig` for the request at time `now`.
    pub fn verify_at(&self, now: i64, method: &str, bucket_id: &str, path: &str, sig: &str) -> (r:
        Result<(), AuthError>)
        requires
            self.wf(),
        ensures
            r == token_outcome(self@.public_key, now, method@, bucket_id@, path@, sig@),
    {
        let text = chars_of(sig);
        let dot = find_from(&text, 0, Some('.'));
        assert(text@.skip(0) =~= text@);
        if dot >= text.len() {
            return Err(AuthError::MalformedSignature);
        }
        let payload_b64 = string_of(&slice_of(&text, 0, dot));
        let signature_b64 = string_of(&slice_of(&text, dot + 1, text.len()));
        assert(text@.subrange(0, dot as int) =~= text@.take(dot as int));
        assert(text@.subrange(dot + 1, text.len() as int) =~= text@.skip(dot + 1));
        let payload_bytes = match decode_base64url(payload_b64.as_str()) {
            Some(bytes) => bytes,
            None => { return Err(AuthError::MalformedPayload); },
        };
        let payload = match parse_payload(&payload_bytes) {
            Some(payload) => payload,
            None => { return Err(AuthError::MalformedPayload); },
        };
        match check_claims(&payload, now, method, bucket_id, path) {
            Ok(_) => {},
            Err(e) => { return Err(e); },
        }
        let signature = match decode_base64url(signature_b64.as_str()) {
            Some(bytes) => bytes,
            None => { return Err(AuthError::MalformedSignature); },
        };
        if signature.len() != 64 {
            return Err(AuthError::MalformedSignature);
        }
        if signature_accepted(&self.public_key, &payload_bytes, &signature) {
            Ok(())
        } else {
            Err(AuthError::InvalidSignature)
        }
    }

    /// Verifies the presigned token `sig` for the request, at the time
    /// that the clock gives.
    pub fn verify(&self, method: &str, bucket_id: &str, path: &str, sig: &str) -> (r: Result<
        (),
        AuthError,
    >)
        requires
            self.wf(),
        ensures
            exists|now: i64|
                r == token_outcome(self@.public_key, now, method@, bucket_id@, path@, sig@),
    {
        let now = unix_now();
        self.verify_at(now, method, bucket_id, path, sig)
    }

    /// Compares `token` with the configured bearer token.
    pub fn verify_bearer(&self, token: &str) -> (r: Result<(), AuthError>)
        ensures
            r == bearer_outcome(self@.bearer_token, token@),
    {
        match &self.bearer_token {
            None => Err(AuthError::BearerNotConfigured),
            Some(expected) => {
                if same_text(token, expected.as_str()) {
                    Ok(())
                } else {
                    Err(AuthError::InvalidBearer)
                }
            },
        }
    }
}

/// A token that has expired is refused as expired, whatever its
/// signature: this holds of every token that carries claims of version 1.
pub proof fn law_expired_token_is_refused(
    public_key: Seq<u8>,
    now: i64,
    method: Seq<char>,
    bucket_id: Seq<char>,
    path: Seq<char>,
    sig: Seq<char>,
)
    requires
        token_payload(sig) is Ok,
        token_payload(sig)->Ok_0.1.version == 1,
        token_payload(sig)->Ok_0.1.expiry < now,
    ensures
        token_outcome(public_key, now, method, bucket_id, path, sig) == Err::<(), AuthError>(
            AuthError::Expired,
        ),
{
}

/// A token is accepted only for the method, bucket and path that its
/// claims name, only while it has not expired, and only with a signature
/// that the public key accepts over the payload bytes.
pub proof fn law_token_is_scoped(
    public_key: Seq<u8>,
    now: i64,
    method: Seq<char>,
    bucket_id: Seq<char>,
    path: Seq<char>,
    sig: Seq<char>,
)
    requires
        token_outcome(public_key, now, method, bucket_id, path, sig) is Ok,
    ensures
        token_payload(sig) is Ok,
        token_payload(sig)->Ok_0.1.version == 1,
        token_payload(sig)->Ok_0.1.expiry >= now,
        upper_case(token_payload(sig)->Ok_0.1.method) == upper_case(method),
        token_payload(sig)->Ok_0.1.bucket_id == bucket_id,
        token_payload(sig)->Ok_0.1.path == path,
        token_signature(sig) is Some,
        ed25519_accepts(public_key, token_payload(sig)->Ok_0.0, token_signature(sig)->Some_0),
{
}

/// A token whose claims name the method `GET` does not authorize a `PUT`,
/// on the same bucket and path or on any other.
pub proof fn law_get_token_refuses_put(
    public_key: Seq<u8>,
    now: i64,
    bucket_id: Seq<char>,
    path: Seq<char>,
    sig: Seq<char>,
)
    requires
        token_payload(sig) is Ok,
        token_payload(sig)->Ok_0.1.method == "GET"@,
    ensures
        token_outcome(public_key, now, "PUT"@, bucket_id, path, sig) is Err,
{
    reveal_strlit("GET");
    reveal_strlit("PUT");
    let a = upper_case("GET"@);
    let b = upper_case("PUT"@);
    assert(a[0] == 'G');
    assert(b[0] == 'P');
}

} // verus!
