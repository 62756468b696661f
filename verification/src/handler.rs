//! The request pipelines for GET, HEAD and PUT on an object.
//!
//! Each pipeline is a function from the state it is in and the event
//! that arrived to the next state and the action to take. The caller
//! performs the action (a cache lookup, an upstream call, a wait) and
//! comes back with the event that it produced.

use crate::auth::{
    bearer_outcome, token_outcome, AuthContext, AuthError, AuthKeys, AuthMethod, AuthState,
};
use crate::cache::memory::{admits, after_put, distinct_keys, lookup, Slot};
use crate::cache::{CacheEntry, CacheStats, EntryView, KeyView};
use crate::config::CachePolicy;
use crate::inflight::{acquired, one_entry_per_key, Flights};
use crate::metrics::{MetricsSnapshot, UpstreamErrorKind};
use crate::text::{
    chars_of, contains, contains_run, eq_ignore_case, find_from, first_match, has_prefix,
    opt_view, same_chars, same_ignore_case, skip_from, slice_of, starts_with, string_of,
    strip_front,
};
use vstd::prelude::*;
use vstd::string::StrSliceExecFns;

verus! {

/// A response, before it is put on the wire.
#[derive(Debug, Clone)]
pub struct Response {
    pub status: u16,
    pub content_type: Option<String>,
    pub content_length: Option<u64>,
    /// The `X-CG-Status` header: whether the object came from the cache.
    pub cache_hit: Option<bool>,
    pub body: Vec<u8>,
}

/// A `Response` as mathematical values.
pub struct ResponseView {
    pub status: u16,
    pub content_type: Option<Seq<char>>,
    pub content_length: Option<u64>,
    pub cache_hit: Option<bool>,
    pub body: Seq<u8>,
}

impl View for Response {
    type V = ResponseView;

    open spec fn view(&self) -> ResponseView {
        ResponseView {
            status: self.status,
            content_type: opt_view(self.content_type),
            content_length: self.content_length,
            cache_hit: self.cache_hit,
            body: self.body@,
        }
    }
}

/// A failed request: the status for the client and a short message.
#[derive(Debug, Clone)]
pub struct AppError {
    pub status: u16,
    pub message: String,
}

impl View for AppError {
    type V = (u16, Seq<char>);

    open spec fn view(&self) -> (u16, Seq<char>) {
        (self.status, self.message@)
    }
}

/// What a request is answered with.
pub open spec fn reply_view(reply: Result<Response, AppError>) -> Result<
    ResponseView,
    (u16, Seq<char>),
> {
    match reply {
        Ok(response) => Ok(response@),
        Err(error) => Err(error@),
    }
}

/// The failure that an upstream error of the given kind is answered with:
/// a missing object is the client's 404, anything else a 502.
pub open spec fn store_failure(kind: UpstreamErrorKind) -> (u16, Seq<char>) {
    match kind {
        UpstreamErrorKind::NotFound => (404u16, "object not found"@),
        _ => (502u16, "upstream error"@),
    }
}

impl AppError {
    pub fn bad_request(message: &str) -> (r: Self)
        ensures
            r@ == (400u16, message@),
    {
        AppError { status: 400, message: string_of(&chars_of(message)) }
    }

    pub fn unauthorized(message: &str) -> (r: Self)
        ensures
            r@ == (401u16, message@),
    {
        AppError { status: 401, message: string_of(&chars_of(message)) }
    }

    pub fn not_found(message: &str) -> (r: Self)
        ensures
            r@ == (404u16, message@),
    {
        AppError { status: 404, message: string_of(&chars_of(message)) }
    }

    pub fn from_store(kind: UpstreamErrorKind) -> (r: Self)
        ensures
            r@ == store_failure(kind),
    {
        match kind {
            UpstreamErrorKind::NotFound => AppError::not_found("object not found"),
            _ => AppError { status: 502, message: string_of(&chars_of("upstream error")) },
        }
    }

    /// The response that carries the failure to the client.
    pub fn into_response(self) -> (r: Response)
        ensures
            r.status == self.status,
            r.body@ == vstd::utf8::encode_utf8(self.message@),
            r.content_type is None,
            r.content_length is None,
            r.cache_hit is None,
    {
        let body = self.message.as_str().as_bytes_vec();
        Response {
            status: self.status,
            content_type: None,
            content_length: None,
            cache_hit: None,
            body,
        }
    }
}

/// Whether an object path is accepted: not empty, without `..`, and not
/// starting with `/`.
pub open spec fn path_is_valid(path: Seq<char>) -> bool {
    path.len() > 0 && !contains_run(path, ".."@) && !has_prefix(path, "/"@)
}

/// Whether an object path is accepted.
pub fn valid_path(path: &str) -> (r: bool)
    ensures
        r == path_is_valid(path@),
{
    let p = chars_of(path);
    p.len() > 0 && !contains(&p, &chars_of("..")) && !starts_with(&p, &chars_of("/"))
}

/// What the value of a `prefetch` parameter says: `1` and `true` ask for
/// it, `0` and `false` decline, in any ASCII case; anything else says
/// nothing.
pub open spec fn prefetch_value(value: Seq<char>) -> Option<bool> {
    if value == "1"@ {
        Some(true)
    } else if value == "0"@ {
        Some(false)
    } else if eq_ignore_case(value, "true"@) {
        Some(true)
    } else if eq_ignore_case(value, "false"@) {
        Some(false)
    } else {
        None
    }
}

/// Whether a request asks for a prefetch: only with a parameter that
/// says so.
pub open spec fn prefetch_asked(param: Option<Seq<char>>) -> bool {
    match param {
        Some(value) => prefetch_value(value) == Some(true),
        None => false,
    }
}

pub fn parse_prefetch_value(value: &str) -> (r: Option<bool>)
    ensures
        r == prefetch_value(value@),
{
    let v = chars_of(value);
    if same_chars(&v, &chars_of("1")) {
        Some(true)
    } else if same_chars(&v, &chars_of("0")) {
        Some(false)
    } else if same_ignore_case(&v, &chars_of("true")) {
        Some(true)
    } else if same_ignore_case(&v, &chars_of("false")) {
        Some(false)
    } else {
        None
    }
}

/// Whether the `prefetch` query parameter, if there is one, asks for a
/// prefetch.
pub fn parse_prefetch(param: Option<&str>) -> (r: bool)
    ensures
        r == prefetch_asked(
            match param {
                Some(value) => Some(value@),
                None => None,
            },
        ),
{
    match param {
        Some(value) => match parse_prefetch_value(value) {
            Some(asked) => asked,
            None => false,
        },
        None => false,
    }
}

/// The token of an `Authorization` header: its second word, if the first
/// is the scheme `bearer` in any ASCII case.
pub open spec fn bearer_token(value: Seq<char>) -> Option<Seq<char>> {
    let a = strip_front(value, None);
    let scheme = a.take(first_match(a, None));
    let b = strip_front(a.skip(first_match(a, None)), None);
    let token = b.take(first_match(b, None));
    if scheme.len() > 0 && token.len() > 0 && eq_ignore_case(scheme, "bearer"@) {
        Some(token)
    } else {
        None
    }
}

/// Reads the bearer token out of the value of an `Authorization` header.
pub fn parse_bearer_token(value: &str) -> (r: Option<String>)
    ensures
        opt_view(r) == bearer_token(value@),
{
    let v = chars_of(value);
    assert(v@.skip(0) =~= v@);
    let s0 = skip_from(&v, 0, None);
    let s1 = find_from(&v, s0, None);
    let t0 = skip_from(&v, s1, None);
    let t1 = find_from(&v, t0, None);
    proof {
        let a = v@.skip(s0 as int);
        assert(a.take(s1 - s0) =~= v@.subrange(s0 as int, s1 as int));
        assert(a.skip(s1 - s0) =~= v@.skip(s1 as int));
        let b = v@.skip(t0 as int);
        assert(b.take(t1 - t0) =~= v@.subrange(t0 as int, t1 as int));
    }
    let scheme = slice_of(&v, s0, s1);
    let token = slice_of(&v, t0, t1);
    if scheme.len() > 0 && token.len() > 0 && same_ignore_case(&scheme, &chars_of("bearer")) {
        Some(string_of(&token))
    } else {
        None
    }
}

/// Who a request is authenticated as. A bearer token is tried when the
/// `Authorization` header carries one; if it is not accepted and there
/// is a `sig` parameter, the presigned token decides and its error is
/// the one reported; with neither credential the error is `MissingAuth`.
pub open spec fn auth_outcome(
    keys: AuthKeys,
    now: i64,
    method: Seq<char>,
    bucket_id: Seq<char>,
    path: Seq<char>,
    authorization: Option<Seq<char>>,
    sig: Option<Seq<char>>,
) -> Result<AuthMethod, AuthError> {
    let bearer: Option<Result<(), AuthError>> = match authorization {
        Some(header) => match bearer_token(header) {
            Some(token) => Some(bearer_outcome(keys.bearer_token, token)),
            None => None,
        },
        None => None,
    };
    if bearer == Some(Ok::<(), AuthError>(())) {
        Ok(AuthMethod::Bearer)
    } else {
        match sig {
            Some(s) => match token_outcome(keys.public_key, now, method, bucket_id, path, s) {
                Ok(_) => Ok(AuthMethod::Presign),
                Err(e) => Err(e),
            },
            None => match bearer {
                Some(Err(e)) => Err(e),
                _ => Err(AuthError::MissingAuth),
            },
        }
    }
}

/// The view of an optional string slice.
pub open spec fn opt_str(o: Option<&str>) -> Option<Seq<char>> {
    match o {
        Some(s) => Some(s@),
        None => None,
    }
}

/// The credential form that an answer names, or its error.
pub open spec fn auth_answer(r: Result<AuthContext, AuthError>) -> Result<AuthMethod, AuthError> {
    match r {
        Ok(context) => Ok(context.method),
        Err(e) => Err(e),
    }
}

/// Authenticates a request at time `now`, from the value of its
/// `Authorization` header and its `sig` parameter.
pub fn auth_middleware_at(
    auth: &AuthState,
    now: i64,
    method: &str,
    bucket_id: &str,
    path: &str,
    authorization: Option<&str>,
    sig: Option<&str>,
) -> (r: Result<AuthContext, AuthError>)
    requires
        auth.wf(),
    ensures
        auth_answer(r) == auth_outcome(
            auth@,
            now,
            method@,
            bucket_id@,
            path@,
            opt_str(authorization),
            opt_str(sig),
        ),
{
    let mut last_error: Option<AuthError> = None;
    match authorization {
        Some(header) => match parse_bearer_token(header) {
            Some(token) => match auth.verify_bearer(token.as_str()) {
                Ok(_) => { return Ok(AuthContext { method: AuthMethod::Bearer }); },
                Err(e) => { last_error = Some(e); },
            },
            None => {},
        },
        None => {},
    }
    match sig {
        Some(s) => match auth.verify_at(now, method, bucket_id, path, s) {
            Ok(_) => Ok(AuthContext { method: AuthMethod::Presign }),
            Err(e) => Err(e),
        },
        None => match last_error {
            Some(e) => Err(e),
            None => Err(AuthError::MissingAuth),
        },
    }
}

/// Authenticates a request at the time that the clock gives.
pub fn auth_middleware(
    auth: &AuthState,
    method: &str,
    bucket_id: &str,
    path: &str,
    authorization: Option<&str>,
    sig: Option<&str>,
) -> (r: Result<AuthContext, AuthError>)
    requires
        auth.wf(),
    ensures
        exists|now: i64|
            auth_answer(r) == #[trigger] auth_outcome(
                auth@,
                now,
                method@,
                bucket_id@,
                path@,
                opt_str(authorization),
                opt_str(sig),
            ),
{
    let now = crate::auth::unix_now();
    auth_middleware_at(auth, now, method, bucket_id, path, authorization, sig)
}

/// What the client is told of a failed authentication: one answer for
/// every kind of failure.
pub fn rejection(error: AuthError) -> (r: AppError)
    ensures
        r@ == (401u16, "invalid auth"@),
{
    AppError::unauthorized("invalid auth")
}

/// No request is authenticated without a credential that was accepted:
/// the configured bearer token, or a presigned token that verifies for
/// this very request.
pub proof fn law_no_request_without_credential(
    keys: AuthKeys,
    now: i64,
    method: Seq<char>,
    bucket_id: Seq<char>,
    path: Seq<char>,
    authorization: Option<Seq<char>>,
    sig: Option<Seq<char>>,
)
    ensures
        match auth_outcome(keys, now, method, bucket_id, path, authorization, sig) {
            Ok(AuthMethod::Bearer) => authorization is Some && bearer_token(authorization->Some_0)
                is Some && keys.bearer_token == Some(bearer_token(authorization->Some_0)->Some_0),
            Ok(AuthMethod::Presign) => sig is Some && token_outcome(
                keys.public_key,
                now,
                method,
                bucket_id,
                path,
                sig->Some_0,
            ) is Ok,
            Err(_) => true,
        },
        authorization is None && sig is None ==> auth_outcome(
            keys,
            now,
            method,
            bucket_id,
            path,
            authorization,
            sig,
        ) == Err::<AuthMethod, AuthError>(AuthError::MissingAuth),
{
}

/// The media type that `mime_guess` maps the extension of `path` to, as
/// `std::path::Path` reads the path on the target platform.
pub uninterp spec fn mime_of_path(path: Seq<char>) -> Option<Seq<char>>;

/// The media type that `infer` recognises the leading bytes as.
pub uninterp spec fn sniffed_type(bytes: Seq<u8>) -> Option<Seq<char>>;

/// `mime_guess::from_path`, the first guess, as `type/subtype`.
#[verifier::external_body]
fn guess_from_path(path: &str) -> (r: Option<String>)
    ensures
        opt_view(r) == mime_of_path(path@),
{
    mime_guess::from_path(path).first().map(|mime| mime.essence_str().to_string())
}

/// `infer::get`: the media type of the kind that matches the bytes.
#[verifier::external_body]
fn sniff(bytes: &Vec<u8>) -> (r: Option<String>)
    ensures
        opt_view(r) == sniffed_type(bytes@),
{
    infer::get(bytes.as_slice()).map(|kind| kind.mime_type().to_string())
}

/// The content type of a fetched object: the guess from the path, else
/// what the bytes were recognised as, else `application/octet-stream`.
pub open spec fn chosen_type(guessed: Option<Seq<char>>, sniffed: Option<Seq<char>>) -> Seq<char> {
    match guessed {
        Some(g) => g,
        None => match sniffed {
            Some(s) => s,
            None => "application/octet-stream"@,
        },
    }
}

/// Chooses between the guess from the path and what the bytes were
/// recognised as.
pub fn choose_content_type(guessed: Option<String>, sniffed: Option<String>) -> (r: String)
    ensures
        r@ == chosen_type(opt_view(guessed), opt_view(sniffed)),
{
    match guessed {
        Some(g) => g,
        None => match sniffed {
            Some(s) => s,
            None => string_of(&chars_of("application/octet-stream")),
        },
    }
}

/// The content type of an object fetched from upstream.
pub fn resolve_content_type(path: &str, bytes: &Vec<u8>) -> (r: String)
    ensures
        r@ == chosen_type(mime_of_path(path@), sniffed_type(bytes@)),
{
    match guess_from_path(path) {
        Some(g) => g,
        None => choose_content_type(None, sniff(bytes)),
    }
}

/// The content type of an uploaded object: the request's `Content-Type`
/// header if it has a value, else the guess from the path.
pub open spec fn upload_type(header: Option<Seq<char>>, guessed: Option<Seq<char>>) -> Option<
    Seq<char>,
> {
    match header {
        Some(h) => if h.len() > 0 {
            Some(h)
        } else {
            guessed
        },
        None => guessed,
    }
}

/// Chooses between the `Content-Type` header and the guess from the path.
pub fn choose_upload_type(header: Option<&str>, guessed: Option<String>) -> (r: Option<String>)
    ensures
        opt_view(r) == upload_type(opt_str(header), opt_view(guessed)),
{
    match header {
        Some(h) => {
            let text = chars_of(h);
            if text.len() > 0 {
                Some(string_of(&text))
            } else {
                guessed
            }
        },
        None => guessed,
    }
}

/// The content type of an uploaded object.
pub fn content_type_from_headers(header: Option<&str>, path: &str) -> (r: Option<String>)
    ensures
        opt_view(r) == upload_type(opt_str(header), mime_of_path(path@)),
{
    choose_upload_type(header, guess_from_path(path))
}

/// The response to a GET: the entry's bytes, its content type or else
/// `application/octet-stream`, and whether it came from the cache.
pub open spec fn object_response(entry: EntryView, cache_hit: bool) -> ResponseView {
    ResponseView {
        status: 200,
        content_type: Some(
            match entry.1 {
                Some(t) => t,
                None => "application/octet-stream"@,
            },
        ),
        content_length: Some(entry.0.len() as u64),
        cache_hit: Some(cache_hit),
        body: entry.0,
    }
}

/// The response to a HEAD: the length and the content type, no body.
pub open spec fn head_response(length: u64, content_type: Option<Seq<char>>) -> ResponseView {
    ResponseView {
        status: 200,
        content_type,
        content_length: Some(length),
        cache_hit: None,
        body: Seq::<u8>::empty(),
    }
}

/// The response to a PUT: empty.
pub open spec fn put_response() -> ResponseView {
    ResponseView {
        status: 200,
        content_type: None,
        content_length: None,
        cache_hit: None,
        body: Seq::<u8>::empty(),
    }
}

pub fn build_response(entry: CacheEntry, cache_hit: bool) -> (r: Response)
    ensures
        r@ == object_response(entry@, cache_hit),
{
    let length = entry.bytes.len() as u64;
    let content_type = match entry.content_type {
        Some(t) => t,
        None => string_of(&chars_of("application/octet-stream")),
    };
    Response {
        status: 200,
        content_type: Some(content_type),
        content_length: Some(length),
        cache_hit: Some(cache_hit),
        body: entry.bytes,
    }
}

pub fn build_head_response(entry: CacheEntry) -> (r: Response)
    ensures
        r@ == head_response(entry@.0.len() as u64, entry@.1),
{
    Response {
        status: 200,
        content_type: entry.content_type,
        content_length: Some(entry.bytes.len() as u64),
        cache_hit: None,
        body: Vec::new(),
    }
}

pub fn build_head_response_with_meta(length: u64, content_type: Option<String>) -> (r: Response)
    ensures
        r@ == head_response(length, opt_view(content_type)),
{
    Response {
        status: 200,
        content_type,
        content_length: Some(length),
        cache_hit: None,
        body: Vec::new(),
    }
}

pub fn build_put_response() -> (r: Response)
    ensures
        r@ == put_response(),
{
    Response {
        status: 200,
        content_type: None,
        content_length: None,
        cache_hit: None,
        body: Vec::new(),
    }
}

/// The value of the `X-CG-Status` header.
pub fn cache_status_value(cache_hit: bool) -> (r: &'static str)
    ensures
        r@ == if cache_hit {
            "hit=1"@
        } else {
            "hit=0"@
        },
{
    if cache_hit {
        "hit=1"
    } else {
        "hit=0"
    }
}

/// The largest payload that a PUT admits to the cache: the configured
/// object size, or the whole memory tier where none is configured.
pub fn cache_max_object_bytes(policy: &CachePolicy) -> (r: u64)
    ensures
        r == if policy.max_object_size == 0 {
            policy.max_memory
        } else {
            policy.max_object_size
        },
{
    if policy.max_object_size == 0 {
        policy.max_memory
    } else {
        policy.max_object_size
    }
}

/// The cache part of the `/stats` answer.
#[derive(Debug, Clone, Copy, PartialEq, Eq)]
pub struct CacheStatsResponse {
    pub entries: u64,
    pub bytes: u64,
}

/// The `/stats` answer.
#[derive(Debug, Clone, Copy, PartialEq, Eq)]
pub struct StatsResponse {
    pub requests_total: u64,
    pub auth_fail_total: u64,
    pub cache_hit_total: u64,
    pub cache_miss_total: u64,
    pub upstream_ok_total: u64,
    pub upstream_err_total: u64,
    pub cache: CacheStatsResponse,
}

/// The `/stats` answer: the counters, and of the cache the number of
/// insertions and the resident bytes.
pub fn stats(snapshot: &MetricsSnapshot, cache_stats: &CacheStats) -> (r: StatsResponse)
    ensures
        r.requests_total == snapshot.requests_total,
        r.auth_fail_total == snapshot.auth_fail_total,
        r.cache_hit_total == snapshot.cache_hit_total,
        r.cache_miss_total == snapshot.cache_miss_total,
        r.upstream_ok_total == snapshot.upstream_ok_total,
        r.upstream_err_total == snapshot.upstream_err_total,
        r.cache.entries == cache_stats.inserts,
        r.cache.bytes == cache_stats.total_bytes,
{
    StatsResponse {
        requests_total: snapshot.requests_total,
        auth_fail_total: snapshot.auth_fail_total,
        cache_hit_total: snapshot.cache_hit_total,
        cache_miss_total: snapshot.cache_miss_total,
        upstream_ok_total: snapshot.upstream_ok_total,
        upstream_err_total: snapshot.upstream_err_total,
        cache: CacheStatsResponse {
            entries: cache_stats.inserts,
            bytes: cache_stats.total_bytes,
        },
    }
}

/// The `/health` answer: 200 with the body `OK`.
pub fn health() -> (r: Response)
    ensures
        r.status == 200,
        r.body@ == seq![79u8, 75u8],
        r.content_type is None,
        r.content_length is None,
        r.cache_hit is None,
{
    let mut body: Vec<u8> = Vec::new();
    body.push(79u8);
    body.push(75u8);
    Response { status: 200, content_type: None, content_length: None, cache_hit: None, body }
}

/// The `/metrics` answer: the rendered counters as Prometheus text.
pub fn metrics(rendered: &str) -> (r: Response)
    ensures
        r.status == 200,
        opt_view(r.content_type) == Some("text/plain; version=0.0.4"@),
        r.body@ == vstd::utf8::encode_utf8(rendered@),
        r.content_length is None,
        r.cache_hit is None,
{
    Response {
        status: 200,
        content_type: Some(string_of(&chars_of("text/plain; version=0.0.4"))),
        content_length: None,
        cache_hit: None,
        body: rendered.as_bytes_vec(),
    }
}

/// The prefix of an upload that is kept for the cache, at most `cap`
/// bytes of it.
#[derive(Debug, Clone)]
pub struct PrefixBuffer {
    buffer: Vec<u8>,
    cap: usize,
    capped: bool,
    total: usize,
}

/// A `PrefixBuffer` as mathematical values.
pub struct PrefixView {
    pub buffer: Seq<u8>,
    pub cap: nat,
    pub capped: bool,
    pub total: nat,
}

/// The buffer before the first chunk. A cap of zero keeps nothing.
pub open spec fn prefix_start(cap: nat) -> PrefixView {
    PrefixView { buffer: Seq::<u8>::empty(), cap, capped: cap == 0, total: 0 }
}

/// The buffer after one more chunk. A chunk that arrives when the buffer
/// is full, or that does not fit in what is left, caps the upload; what
/// fits of it is kept. The total counts every byte, up to the largest
/// `usize`.
pub open spec fn absorbed(p: PrefixView, chunk: Seq<u8>) -> PrefixView {
    let total = if p.total + chunk.len() > usize::MAX {
        usize::MAX as nat
    } else {
        p.total + chunk.len()
    };
    let remaining = p.cap - p.buffer.len();
    if p.capped {
        PrefixView { total, ..p }
    } else if remaining <= 0 {
        PrefixView { total, capped: true, ..p }
    } else if chunk.len() <= remaining {
        PrefixView { total, buffer: p.buffer + chunk, ..p }
    } else {
        PrefixView { total, buffer: p.buffer + chunk.take(remaining), capped: true, ..p }
    }
}

/// The buffer after the chunks, in order.
pub open spec fn fed(cap: nat, chunks: Seq<Seq<u8>>) -> PrefixView
    decreases chunks.len(),
{
    if chunks.len() == 0 {
        prefix_start(cap)
    } else {
        absorbed(fed(cap, chunks.drop_last()), chunks.last())
    }
}

/// The chunks, one after the other.
pub open spec fn joined(chunks: Seq<Seq<u8>>) -> Seq<u8>
    decreases chunks.len(),
{
    if chunks.len() == 0 {
        Seq::<u8>::empty()
    } else {
        joined(chunks.drop_last()) + chunks.last()
    }
}

impl View for PrefixBuffer {
    type V = PrefixView;

    closed spec fn view(&self) -> PrefixView {
        PrefixView {
            buffer: self.buffer@,
            cap: self.cap as nat,
            capped: self.capped,
            total: self.total as nat,
        }
    }
}

impl PrefixBuffer {
    /// The buffer holds no more than its cap.
    pub open spec fn wf(&self) -> bool {
        self@.buffer.len() <= self@.cap && self@.cap <= usize::MAX && self@.total <= usize::MAX
    }

    pub fn new(cap: usize) -> (r: Self)
        ensures
            r.wf(),
            r@ == prefix_start(cap as nat),
    {
        PrefixBuffer { buffer: Vec::new(), cap, capped: cap == 0, total: 0 }
    }

    /// Takes in the next chunk of the body.
    pub fn absorb(&mut self, chunk: &Vec<u8>)
        requires
            old(self).wf(),
        ensures
            final(self).wf(),
            final(self)@ == absorbed(old(self)@, chunk@),
    {
        self.total = if chunk.len() > usize::MAX - self.total {
            usize::MAX
        } else {
            self.total + chunk.len()
        };
        if !self.capped {
            let remaining = self.cap - self.buffer.len();
            if remaining == 0 {
                self.capped = true;
            } else if chunk.len() <= remaining {
                let mut i: usize = 0;
                while i < chunk.len()
                    invariant
                        i <= chunk.len(),
                        self.buffer@ == old(self).buffer@ + chunk@.take(i as int),
                        self.cap == old(self).cap,
                        self.capped == old(self).capped,
                        self.total == if old(self).total + chunk.len() > usize::MAX {
                            usize::MAX
                        } else {
                            (old(self).total + chunk.len()) as usize
                        },
                    decreases chunk.len() - i,
                {
                    self.buffer.push(chunk[i]);
                    assert(chunk@.take(i + 1) =~= chunk@.take(i as int).push(chunk@[i as int]));
                    assert(self.buffer@ =~= old(self).buffer@ + chunk@.take(i + 1));
                    i += 1;
                }
                assert(chunk@.take(chunk.len() as int) =~= chunk@);
            } else {
                let mut i: usize = 0;
                while i < remaining
                    invariant
                        i <= remaining < chunk.len(),
                        self.buffer@ == old(self).buffer@ + chunk@.take(i as int),
                        self.cap == old(self).cap,
                        self.capped == old(self).capped,
                        self.total == if old(self).total + chunk.len() > usize::MAX {
                            usize::MAX
                        } else {
                            (old(self).total + chunk.len()) as usize
                        },
                    decreases remaining - i,
                {
                    self.buffer.push(chunk[i]);
                    assert(chunk@.take(i + 1) =~= chunk@.take(i as int).push(chunk@[i as int]));
                    assert(self.buffer@ =~= old(self).buffer@ + chunk@.take(i + 1));
                    i += 1;
                }
                self.capped = true;
            }
        }
    }

    /// Whether the upload went over the cap: it is then not admitted.
    pub fn is_capped(&self) -> (r: bool)
        ensures
            r == self@.capped,
    {
        self.capped
    }

    /// The number of bytes seen, up to the largest `usize`.
    pub fn total_bytes(&self) -> (r: usize)
        ensures
            r == self@.total,
    {
        self.total
    }

    /// A copy of the bytes kept.
    pub fn bytes(&self) -> (r: Vec<u8>)
        ensures
            r@ == self@.buffer,
    {
        self.buffer.clone()
    }
}

/// What the buffer holds after any chunks: the start of the body, up to
/// the cap. Unless the upload is capped that is the whole body; a body
/// longer than the cap caps the upload, and a body shorter than the cap
/// does not.
pub proof fn law_prefix_of_body(cap: nat, chunks: Seq<Seq<u8>>)
    ensures
        fed(cap, chunks).cap == cap,
        fed(cap, chunks).buffer.len() <= cap,
        fed(cap, chunks).buffer == joined(chunks).take(
            if joined(chunks).len() <= cap {
                joined(chunks).len() as int
            } else {
                cap as int
            },
        ),
        !fed(cap, chunks).capped ==> fed(cap, chunks).buffer == joined(chunks) && joined(
            chunks,
        ).len() <= cap,
        joined(chunks).len() > cap ==> fed(cap, chunks).capped,
        cap > 0 && joined(chunks).len() < cap ==> !fed(cap, chunks).capped,
        fed(cap, chunks).capped ==> joined(chunks).len() >= cap,
    decreases chunks.len(),
{
    let all = joined(chunks);
    if chunks.len() == 0 {
        assert(all.take(0) =~= Seq::<u8>::empty());
    } else {
        let before = chunks.drop_last();
        let chunk = chunks.last();
        law_prefix_of_body(cap, before);
        let p = fed(cap, before);
        let seen = joined(before);
        let q = fed(cap, chunks);
        let n: int = if all.len() <= cap {
            all.len() as int
        } else {
            cap as int
        };
        if p.capped {
            assert(seen.len() >= cap);
            assert(all.take(n) =~= seen.take(cap as int));
        } else if cap - p.buffer.len() <= 0 {
            assert(all.take(n) =~= seen);
        } else if chunk.len() <= cap - p.buffer.len() {
            assert(all.take(n) =~= all);
        } else {
            assert(all.take(n) =~= seen + chunk.take(cap - seen.len()));
        }
    }
}

/// What a pipeline adds to the counters with a step.
#[derive(Debug, Clone, Copy, PartialEq, Eq, Structural)]
pub struct Tally {
    pub cache_hit: bool,
    pub cache_miss: bool,
    pub upstream_ok: bool,
    pub upstream_err: Option<UpstreamErrorKind>,
    /// The upstream latency to observe, in milliseconds.
    pub latency_ms: Option<u64>,
    /// The status under which the request is counted as served.
    pub status: Option<u16>,
}

/// Nothing to count.
pub open spec fn no_tally() -> Tally {
    Tally {
        cache_hit: false,
        cache_miss: false,
        upstream_ok: false,
        upstream_err: None,
        latency_ms: None,
        status: None,
    }
}

/// Where a pipeline stands.
#[derive(Debug, Clone, Copy, PartialEq, Eq, Structural)]
pub enum Stage {
    Start,
    Looking,
    Acquiring,
    Leading,
    Waiting,
    Rechecking,
    Refetching,
    Heading,
    Probing,
    Opening,
    Streaming,
    Closing,
    Done,
}

/// What the upstream HEAD before an upload found.
#[derive(Debug, Clone, Copy, PartialEq, Eq, Structural)]
pub enum Probe {
    Exists,
    Missing,
    Failed,
    UnknownBucket,
}

/// What an upstream GET gave.
#[derive(Debug, Clone)]
pub enum Fetched {
    Object(Vec<u8>),
    Failed(UpstreamErrorKind),
    UnknownBucket,
}

/// A `Fetched` as mathematical values.
pub enum FetchedView {
    Object(Seq<u8>),
    Failed(UpstreamErrorKind),
    UnknownBucket,
}

impl View for Fetched {
    type V = FetchedView;

    open spec fn view(&self) -> FetchedView {
        match self {
            Fetched::Object(bytes) => FetchedView::Object(bytes@),
            Fetched::Failed(kind) => FetchedView::Failed(*kind),
            Fetched::UnknownBucket => FetchedView::UnknownBucket,
        }
    }
}

/// What an upstream HEAD gave.
#[derive(Debug, Clone, Copy, PartialEq, Eq, Structural)]
pub enum Headed {
    Meta(u64),
    Failed(UpstreamErrorKind),
    UnknownBucket,
}

/// What happened since the last action. Upstream events carry the time
/// that the call took, in milliseconds; `Opened` and `Closed` carry the
/// kind of the failure, if the call failed.
#[derive(Debug, Clone)]
pub enum Event {
    Begin,
    Cache(Option<CacheEntry>),
    Permit(bool),
    Woken,
    Fetched(Fetched, u64),
    Headed(Headed, u64),
    Probed(Probe),
    Opened(Option<UpstreamErrorKind>, u64),
    Chunk(Vec<u8>),
    BodyFailed,
    BodyEnd,
    Closed(Option<UpstreamErrorKind>, u64),
}

/// An `Event` as mathematical values.
pub enum EventView {
    Begin,
    Cache(Option<EntryView>),
    Permit(bool),
    Woken,
    Fetched(FetchedView, u64),
    Headed(Headed, u64),
    Probed(Probe),
    Opened(Option<UpstreamErrorKind>, u64),
    Chunk(Seq<u8>),
    BodyFailed,
    BodyEnd,
    Closed(Option<UpstreamErrorKind>, u64),
}

/// The view of an optional cache entry.
pub open spec fn opt_entry(o: Option<CacheEntry>) -> Option<EntryView> {
    match o {
        Some(e) => Some(e@),
        None => None,
    }
}

impl View for Event {
    type V = EventView;

    open spec fn view(&self) -> EventView {
        match self {
            Event::Begin => EventView::Begin,
            Event::Cache(found) => EventView::Cache(opt_entry(*found)),
            Event::Permit(leader) => EventView::Permit(*leader),
            Event::Woken => EventView::Woken,
            Event::Fetched(outcome, ms) => EventView::Fetched(outcome@, *ms),
            Event::Headed(outcome, ms) => EventView::Headed(*outcome, *ms),
            Event::Probed(probe) => EventView::Probed(*probe),
            Event::Opened(result, ms) => EventView::Opened(*result, *ms),
            Event::Chunk(bytes) => EventView::Chunk(bytes@),
            Event::BodyFailed => EventView::BodyFailed,
            Event::BodyEnd => EventView::BodyEnd,
            Event::Closed(result, ms) => EventView::Closed(*result, *ms),
        }
    }
}

/// How a pipeline ends. The caller aborts the upload if asked, admits the
/// entry to the cache, then releases the inflight entry it leads, then
/// schedules the prefetch, and answers with the reply.
#[derive(Debug)]
pub struct Conclusion {
    pub abort_upload: bool,
    pub insert: Option<CacheEntry>,
    pub release: bool,
    pub prefetch: bool,
    pub reply: Option<Result<Response, AppError>>,
}

/// A `Conclusion` as mathematical values.
pub struct ConclusionView {
    pub abort_upload: bool,
    pub insert: Option<EntryView>,
    pub release: bool,
    pub prefetch: bool,
    pub reply: Option<Result<ResponseView, (u16, Seq<char>)>>,
}

impl View for Conclusion {
    type V = ConclusionView;

    open spec fn view(&self) -> ConclusionView {
        ConclusionView {
            abort_upload: self.abort_upload,
            insert: opt_entry(self.insert),
            release: self.release,
            prefetch: self.prefetch,
            reply: match self.reply {
                Some(reply) => Some(reply_view(reply)),
                None => None,
            },
        }
    }
}

/// What the caller does next.
#[derive(Debug)]
pub enum Action {
    /// Look the key up in the cache.
    Lookup,
    /// Acquire the inflight entry of the key.
    Acquire,
    /// Fetch the object from upstream.
    Fetch,
    /// Wait for the leader of the inflight entry.
    Wait,
    /// Ask upstream for the object's size.
    Head,
    /// Find the store, and ask upstream whether the object exists.
    Probe,
    /// Start the upload; the probe says what to log first.
    Open(Probe),
    /// Read the next chunk of the body.
    Read,
    /// Hand the chunk to the upload, then read the next one.
    Forward(Vec<u8>),
    /// Finish the upload.
    Close,
    Conclude(Conclusion),
    /// The event was not expected at this stage: nothing to do.
    Idle,
}

/// An `Action` as mathematical values.
pub enum ActionView {
    Lookup,
    Acquire,
    Fetch,
    Wait,
    Head,
    Probe,
    Open(Probe),
    Read,
    Forward(Seq<u8>),
    Close,
    Conclude(ConclusionView),
    Idle,
}

impl View for Action {
    type V = ActionView;

    open spec fn view(&self) -> ActionView {
        match self {
            Action::Lookup => ActionView::Lookup,
            Action::Acquire => ActionView::Acquire,
            Action::Fetch => ActionView::Fetch,
            Action::Wait => ActionView::Wait,
            Action::Head => ActionView::Head,
            Action::Probe => ActionView::Probe,
            Action::Open(probe) => ActionView::Open(*probe),
            Action::Read => ActionView::Read,
            Action::Forward(bytes) => ActionView::Forward(bytes@),
            Action::Close => ActionView::Close,
            Action::Conclude(conclusion) => ActionView::Conclude(conclusion@),
            Action::Idle => ActionView::Idle,
        }
    }
}

/// One step of a pipeline: the stage it moves to, what to do, and what
/// to count.
#[derive(Debug)]
pub struct Step {
    pub stage: Stage,
    pub action: Action,
    pub tally: Tally,
}

/// A `Step` as mathematical values.
pub struct StepView {
    pub stage: Stage,
    pub action: ActionView,
    pub tally: Tally,
}

impl View for Step {
    type V = StepView;

    open spec fn view(&self) -> StepView {
        StepView { stage: self.stage, action: self.action@, tally: self.tally }
    }
}

/// A step that goes on to `stage` with `action`.
pub open spec fn proceed(stage: Stage, action: ActionView, tally: Tally) -> StepView {
    StepView { stage, action, tally }
}

/// A step that ignores an event that the stage does not expect.
pub open spec fn ignored(stage: Stage) -> StepView {
    StepView { stage, action: ActionView::Idle, tally: no_tally() }
}

/// A step that ends the pipeline.
pub open spec fn concluded(conclusion: ConclusionView, tally: Tally) -> StepView {
    StepView { stage: Stage::Done, action: ActionView::Conclude(conclusion), tally }
}

/// The end of a request that only answers.
pub open spec fn answer(reply: Result<ResponseView, (u16, Seq<char>)>) -> ConclusionView {
    ConclusionView {
        abort_upload: false,
        insert: None,
        release: false,
        prefetch: false,
        reply: Some(reply),
    }
}

/// What is counted for a request served with `status`.
pub open spec fn served(status: u16) -> Tally {
    Tally { status: Some(status), ..no_tally() }
}

/// The step that refuses an object path.
pub open spec fn refused_path() -> StepView {
    concluded(answer(Err((400u16, "invalid object path"@))), served(400))
}

/// The step after an upstream GET. A fetched object is inserted with the
/// content type resolved for it and answered as a miss; a failure is
/// counted under its kind. `release` says whether the caller leads an
/// inflight entry, `replies` whether a client waits for the answer.
pub open spec fn after_fetch(
    path: Seq<char>,
    outcome: FetchedView,
    elapsed_ms: u64,
    release: bool,
    replies: bool,
) -> StepView {
    match outcome {
        FetchedView::UnknownBucket => concluded(
            ConclusionView {
                abort_upload: false,
                insert: None,
                release,
                prefetch: false,
                reply: if replies {
                    Some(Err((404u16, "unknown bucket"@)))
                } else {
                    None
                },
            },
            Tally {
                status: if replies {
                    Some(404u16)
                } else {
                    None
                },
                ..no_tally()
            },
        ),
        FetchedView::Failed(kind) => concluded(
            ConclusionView {
                abort_upload: false,
                insert: None,
                release,
                prefetch: false,
                reply: if replies {
                    Some(Err(store_failure(kind)))
                } else {
                    None
                },
            },
            Tally {
                upstream_err: Some(kind),
                latency_ms: Some(elapsed_ms),
                status: if replies {
                    Some(store_failure(kind).0)
                } else {
                    None
                },
                ..no_tally()
            },
        ),
        FetchedView::Object(bytes) => {
            let entry = (bytes, Some(chosen_type(mime_of_path(path), sniffed_type(bytes))));
            concluded(
                ConclusionView {
                    abort_upload: false,
                    insert: Some(entry),
                    release,
                    prefetch: false,
                    reply: if replies {
                        Some(Ok(object_response(entry, false)))
                    } else {
                        None
                    },
                },
                Tally {
                    upstream_ok: true,
                    latency_ms: Some(elapsed_ms),
                    status: if replies {
                        Some(200u16)
                    } else {
                        None
                    },
                    ..no_tally()
                },
            )
        },
    }
}

/// The GET pipeline. A hit is answered from the cache. On a miss the
/// request acquires the inflight entry: the leader fetches, inserts,
/// releases and answers; a follower waits, looks again, and fetches for
/// itself only if the cache still has nothing.
pub open spec fn get_next(path: Seq<char>, stage: Stage, event: EventView) -> StepView {
    match (stage, event) {
        (Stage::Start, EventView::Begin) => if path_is_valid(path) {
            proceed(Stage::Looking, ActionView::Lookup, no_tally())
        } else {
            refused_path()
        },
        (Stage::Looking, EventView::Cache(Some(entry))) => concluded(
            answer(Ok(object_response(entry, true))),
            Tally { cache_hit: true, ..served(200) },
        ),
        (Stage::Looking, EventView::Cache(None)) => proceed(
            Stage::Acquiring,
            ActionView::Acquire,
            Tally { cache_miss: true, ..no_tally() },
        ),
        (Stage::Acquiring, EventView::Permit(leader)) => if leader {
            proceed(Stage::Leading, ActionView::Fetch, no_tally())
        } else {
            proceed(Stage::Waiting, ActionView::Wait, no_tally())
        },
        (Stage::Waiting, EventView::Woken) => proceed(
            Stage::Rechecking,
            ActionView::Lookup,
            no_tally(),
        ),
        (Stage::Rechecking, EventView::Cache(Some(entry))) => concluded(
            answer(Ok(object_response(entry, true))),
            served(200),
        ),
        (Stage::Rechecking, EventView::Cache(None)) => proceed(
            Stage::Refetching,
            ActionView::Fetch,
            no_tally(),
        ),
        (Stage::Leading, EventView::Fetched(outcome, ms)) => after_fetch(
            path,
            outcome,
            ms,
            true,
            true,
        ),
        (Stage::Refetching, EventView::Fetched(outcome, ms)) => after_fetch(
            path,
            outcome,
            ms,
            false,
            true,
        ),
        _ => ignored(stage),
    }
}

/// The HEAD pipeline. A hit is answered from the cache. On a miss the
/// size comes from upstream and the content type from the path; nothing
/// is inserted, but a prefetch is scheduled if the request asks for one.
pub open spec fn head_next(
    path: Seq<char>,
    prefetch: Option<Seq<char>>,
    stage: Stage,
    event: EventView,
) -> StepView {
    match (stage, event) {
        (Stage::Start, EventView::Begin) => if path_is_valid(path) {
            proceed(Stage::Looking, ActionView::Lookup, no_tally())
        } else {
            refused_path()
        },
        (Stage::Looking, EventView::Cache(Some(entry))) => concluded(
            answer(Ok(head_response(entry.0.len() as u64, entry.1))),
            Tally { cache_hit: true, ..served(200) },
        ),
        (Stage::Looking, EventView::Cache(None)) => proceed(
            Stage::Heading,
            ActionView::Head,
            Tally { cache_miss: true, ..no_tally() },
        ),
        (Stage::Heading, EventView::Headed(Headed::UnknownBucket, ms)) => concluded(
            answer(Err((404u16, "unknown bucket"@))),
            served(404),
        ),
        (Stage::Heading, EventView::Headed(Headed::Failed(kind), ms)) => concluded(
            answer(Err(store_failure(kind))),
            Tally {
                upstream_err: Some(kind),
                latency_ms: Some(ms),
                ..served(store_failure(kind).0)
            },
        ),
        (Stage::Heading, EventView::Headed(Headed::Meta(size), ms)) => concluded(
            ConclusionView {
                prefetch: prefetch_asked(prefetch),
                ..answer(Ok(head_response(size, mime_of_path(path))))
            },
            Tally { upstream_ok: true, latency_ms: Some(ms), ..served(200) },
        ),
        _ => ignored(stage),
    }
}

/// The prefetch that a HEAD schedules: a fetch into the cache, made only
/// by the leader of the inflight entry. A follower does nothing.
pub open spec fn prefetch_next(path: Seq<char>, stage: Stage, event: EventView) -> StepView {
    match (stage, event) {
        (Stage::Start, EventView::Begin) => proceed(
            Stage::Acquiring,
            ActionView::Acquire,
            no_tally(),
        ),
        (Stage::Acquiring, EventView::Permit(leader)) => if leader {
            proceed(Stage::Leading, ActionView::Fetch, no_tally())
        } else {
            concluded(
                ConclusionView {
                    abort_upload: false,
                    insert: None,
                    release: false,
                    prefetch: false,
                    reply: None,
                },
                no_tally(),
            )
        },
        (Stage::Leading, EventView::Fetched(outcome, ms)) => after_fetch(
            path,
            outcome,
            ms,
            true,
            false,
        ),
        _ => ignored(stage),
    }
}

/// The PUT pipeline, with the prefix buffer that it fills. The body is
/// streamed to upstream chunk by chunk while the buffer keeps its start.
/// After the upload the buffer is inserted, unless the upload was capped.
pub open spec fn put_next(
    path: Seq<char>,
    content_type: Option<Seq<char>>,
    stage: Stage,
    buffer: PrefixView,
    event: EventView,
) -> (StepView, PrefixView) {
    match (stage, event) {
        (Stage::Start, EventView::Begin) => if path_is_valid(path) {
            (proceed(Stage::Probing, ActionView::Probe, no_tally()), buffer)
        } else {
            (refused_path(), buffer)
        },
        (Stage::Probing, EventView::Probed(probe)) => if probe == Probe::UnknownBucket {
            (concluded(answer(Err((404u16, "unknown bucket"@))), served(404)), buffer)
        } else {
            (proceed(Stage::Opening, ActionView::Open(probe), no_tally()), buffer)
        },
        (Stage::Opening, EventView::Opened(None, ms)) => (
            proceed(Stage::Streaming, ActionView::Read, no_tally()),
            buffer,
        ),
        (Stage::Opening, EventView::Opened(Some(kind), ms)) => (
            concluded(
                answer(Err(store_failure(kind))),
                Tally {
                    upstream_err: Some(kind),
                    latency_ms: Some(ms),
                    ..served(store_failure(kind).0)
                },
            ),
            buffer,
        ),
        (Stage::Streaming, EventView::Chunk(bytes)) => (
            proceed(Stage::Streaming, ActionView::Forward(bytes), no_tally()),
            absorbed(buffer, bytes),
        ),
        (Stage::Streaming, EventView::BodyFailed) => (
            concluded(
                ConclusionView {
                    abort_upload: true,
                    ..answer(Err((400u16, "invalid request body"@)))
                },
                served(400),
            ),
            buffer,
        ),
        (Stage::Streaming, EventView::BodyEnd) => (
            proceed(Stage::Closing, ActionView::Close, no_tally()),
            buffer,
        ),
        (Stage::Closing, EventView::Closed(None, ms)) => (
            concluded(
                ConclusionView {
                    insert: if buffer.capped {
                        None
                    } else {
                        Some((buffer.buffer, upload_type(content_type, mime_of_path(path))))
                    },
                    ..answer(Ok(put_response()))
                },
                Tally { upstream_ok: true, latency_ms: Some(ms), ..served(200) },
            ),
            buffer,
        ),
        (Stage::Closing, EventView::Closed(Some(kind), ms)) => (
            concluded(
                answer(Err(store_failure(kind))),
                Tally {
                    upstream_err: Some(kind),
                    latency_ms: Some(ms),
                    ..served(store_failure(kind).0)
                },
            ),
            buffer,
        ),
        _ => (ignored(stage), buffer),
    }
}

fn counts_nothing() -> (r: Tally)
    ensures
        r == no_tally(),
{
    Tally {
        cache_hit: false,
        cache_miss: false,
        upstream_ok: false,
        upstream_err: None,
        latency_ms: None,
        status: None,
    }
}

fn counts_served(status: u16) -> (r: Tally)
    ensures
        r == served(status),
{
    let mut t = counts_nothing();
    t.status = Some(status);
    t
}

fn counts_failure(kind: UpstreamErrorKind, elapsed_ms: u64, status: Option<u16>) -> (r: Tally)
    ensures
        r == (Tally {
            upstream_err: Some(kind),
            latency_ms: Some(elapsed_ms),
            status,
            ..no_tally()
        }),
{
    let mut t = counts_nothing();
    t.upstream_err = Some(kind);
    t.latency_ms = Some(elapsed_ms);
    t.status = status;
    t
}

fn counts_success(elapsed_ms: u64, status: Option<u16>) -> (r: Tally)
    ensures
        r == (Tally { upstream_ok: true, latency_ms: Some(elapsed_ms), status, ..no_tally() }),
{
    let mut t = counts_nothing();
    t.upstream_ok = true;
    t.latency_ms = Some(elapsed_ms);
    t.status = status;
    t
}

fn go_on(stage: Stage, action: Action) -> (r: Step)
    ensures
        r@ == proceed(stage, action@, no_tally()),
{
    Step { stage, action, tally: counts_nothing() }
}

fn ignore(stage: Stage) -> (r: Step)
    ensures
        r@ == ignored(stage),
{
    Step { stage, action: Action::Idle, tally: counts_nothing() }
}

fn reply_with(reply: Result<Response, AppError>, tally: Tally) -> (r: Step)
    ensures
        r@ == concluded(answer(reply_view(reply)), tally),
{
    Step {
        stage: Stage::Done,
        action: Action::Conclude(
            Conclusion {
                abort_upload: false,
                insert: None,
                release: false,
                prefetch: false,
                reply: Some(reply),
            },
        ),
        tally,
    }
}

fn refuse_path() -> (r: Step)
    ensures
        r@ == refused_path(),
{
    reply_with(Err(AppError::bad_request("invalid object path")), counts_served(400))
}

fn finish_fetch(path: &str, outcome: Fetched, elapsed_ms: u64, release: bool, replies: bool) -> (r:
    Step)
    ensures
        r@ == after_fetch(path@, outcome@, elapsed_ms, release, replies),
{
    match outcome {
        Fetched::UnknownBucket => {
            let reply = if replies {
                Some(Err(AppError::not_found("unknown bucket")))
            } else {
                None
            };
            let mut tally = counts_nothing();
            if replies {
                tally.status = Some(404);
            }
            Step {
                stage: Stage::Done,
                action: Action::Conclude(
                    Conclusion {
                        abort_upload: false,
                        insert: None,
                        release,
                        prefetch: false,
                        reply,
                    },
                ),
                tally,
            }
        },
        Fetched::Failed(kind) => {
            let error = AppError::from_store(kind);
            let status = if replies {
                Some(error.status)
            } else {
                None
            };
            let reply = if replies {
                Some(Err(error))
            } else {
                None
            };
            Step {
                stage: Stage::Done,
                action: Action::Conclude(
                    Conclusion {
                        abort_upload: false,
                        insert: None,
                        release,
                        prefetch: false,
                        reply,
                    },
                ),
                tally: counts_failure(kind, elapsed_ms, status),
            }
        },
        Fetched::Object(bytes) => {
            let content_type = resolve_content_type(path, &bytes);
            let entry = CacheEntry::new(bytes, Some(content_type));
            let reply = if replies {
                Some(Ok(build_response(entry.duplicate(), false)))
            } else {
                None
            };
            let status = if replies {
                Some(200u16)
            } else {
                None
            };
            Step {
                stage: Stage::Done,
                action: Action::Conclude(
                    Conclusion {
                        abort_upload: false,
                        insert: Some(entry),
                        release,
                        prefetch: false,
                        reply,
                    },
                ),
                tally: counts_success(elapsed_ms, status),
            }
        },
    }
}

/// One step of the GET pipeline for the object at `path`.
pub fn get_object(path: &str, stage: Stage, event: Event) -> (step: Step)
    ensures
        step@ == get_next(path@, stage, event@),
{
    match stage {
        Stage::Start => match event {
            Event::Begin => {
                if valid_path(path) {
                    go_on(Stage::Looking, Action::Lookup)
                } else {
                    refuse_path()
                }
            },
            _ => ignore(stage),
        },
        Stage::Looking => match event {
            Event::Cache(Some(entry)) => {
                let mut tally = counts_served(200);
                tally.cache_hit = true;
                reply_with(Ok(build_response(entry, true)), tally)
            },
            Event::Cache(None) => {
                let mut tally = counts_nothing();
                tally.cache_miss = true;
                Step { stage: Stage::Acquiring, action: Action::Acquire, tally }
            },
            _ => ignore(stage),
        },
        Stage::Acquiring => match event {
            Event::Permit(leader) => {
                if leader {
                    go_on(Stage::Leading, Action::Fetch)
                } else {
                    go_on(Stage::Waiting, Action::Wait)
                }
            },
            _ => ignore(stage),
        },
        Stage::Waiting => match event {
            Event::Woken => go_on(Stage::Rechecking, Action::Lookup),
            _ => ignore(stage),
        },
        Stage::Rechecking => match event {
            Event::Cache(Some(entry)) => reply_with(
                Ok(build_response(entry, true)),
                counts_served(200),
            ),
            Event::Cache(None) => go_on(Stage::Refetching, Action::Fetch),
            _ => ignore(stage),
        },
        Stage::Leading => match event {
            Event::Fetched(outcome, ms) => finish_fetch(path, outcome, ms, true, true),
            _ => ignore(stage),
        },
        Stage::Refetching => match event {
            Event::Fetched(outcome, ms) => finish_fetch(path, outcome, ms, false, true),
            _ => ignore(stage),
        },
        _ => ignore(stage),
    }
}

/// One step of the HEAD pipeline for the object at `path`; `prefetch` is
/// the value of the query parameter of that name.
pub fn head_object(path: &str, prefetch: Option<&str>, stage: Stage, event: Event) -> (step: Step)
    ensures
        step@ == head_next(path@, opt_str(prefetch), stage, event@),
{
    match stage {
        Stage::Start => match event {
            Event::Begin => {
                if valid_path(path) {
                    go_on(Stage::Looking, Action::Lookup)
                } else {
                    refuse_path()
                }
            },
            _ => ignore(stage),
        },
        Stage::Looking => match event {
            Event::Cache(Some(entry)) => {
                let mut tally = counts_served(200);
                tally.cache_hit = true;
                reply_with(Ok(build_head_response(entry)), tally)
            },
            Event::Cache(None) => {
                let mut tally = counts_nothing();
                tally.cache_miss = true;
                Step { stage: Stage::Heading, action: Action::Head, tally }
            },
            _ => ignore(stage),
        },
        Stage::Heading => match event {
            Event::Headed(Headed::UnknownBucket, _) => reply_with(
                Err(AppError::not_found("unknown bucket")),
                counts_served(404),
            ),
            Event::Headed(Headed::Failed(kind), ms) => {
                let error = AppError::from_store(kind);
                let tally = counts_failure(kind, ms, Some(error.status));
                reply_with(Err(error), tally)
            },
            Event::Headed(Headed::Meta(size), ms) => {
                let content_type = guess_from_path(path);
                Step {
                    stage: Stage::Done,
                    action: Action::Conclude(
                        Conclusion {
                            abort_upload: false,
                            insert: None,
                            release: false,
                            prefetch: parse_prefetch(prefetch),
                            reply: Some(Ok(build_head_response_with_meta(size, content_type))),
                        },
                    ),
                    tally: counts_success(ms, Some(200)),
                }
            },
            _ => ignore(stage),
        },
        _ => ignore(stage),
    }
}

/// One step of the prefetch that a HEAD scheduled for the object at
/// `path`.
pub fn spawn_head_prefetch(path: &str, stage: Stage, event: Event) -> (step: Step)
    ensures
        step@ == prefetch_next(path@, stage, event@),
{
    match stage {
        Stage::Start => match event {
            Event::Begin => go_on(Stage::Acquiring, Action::Acquire),
            _ => ignore(stage),
        },
        Stage::Acquiring => match event {
            Event::Permit(leader) => {
                if leader {
                    go_on(Stage::Leading, Action::Fetch)
                } else {
                    Step {
                        stage: Stage::Done,
                        action: Action::Conclude(
                            Conclusion {
                                abort_upload: false,
                                insert: None,
                                release: false,
                                prefetch: false,
                                reply: None,
                            },
                        ),
                        tally: counts_nothing(),
                    }
                }
            },
            _ => ignore(stage),
        },
        Stage::Leading => match event {
            Event::Fetched(outcome, ms) => finish_fetch(path, outcome, ms, true, false),
            _ => ignore(stage),
        },
        _ => ignore(stage),
    }
}

/// One step of the PUT pipeline for the object at `path`; `content_type`
/// is the value of the request's header of that name.
pub fn put_object(
    path: &str,
    content_type: Option<&str>,
    stage: Stage,
    buffer: &mut PrefixBuffer,
    event: Event,
) -> (step: Step)
    requires
        old(buffer).wf(),
    ensures
        final(buffer).wf(),
        (step@, final(buffer)@) == put_next(
            path@,
            opt_str(content_type),
            stage,
            old(buffer)@,
            event@,
        ),
{
    match stage {
        Stage::Start => match event {
            Event::Begin => {
                if valid_path(path) {
                    go_on(Stage::Probing, Action::Probe)
                } else {
                    refuse_path()
                }
            },
            _ => ignore(stage),
        },
        Stage::Probing => match event {
            Event::Probed(probe) => match probe {
                Probe::UnknownBucket => reply_with(
                    Err(AppError::not_found("unknown bucket")),
                    counts_served(404),
                ),
                _ => go_on(Stage::Opening, Action::Open(probe)),
            },
            _ => ignore(stage),
        },
        Stage::Opening => match event {
            Event::Opened(None, _) => go_on(Stage::Streaming, Action::Read),
            Event::Opened(Some(kind), ms) => {
                let error = AppError::from_store(kind);
                let tally = counts_failure(kind, ms, Some(error.status));
                reply_with(Err(error), tally)
            },
            _ => ignore(stage),
        },
        Stage::Streaming => match event {
            Event::Chunk(bytes) => {
                buffer.absorb(&bytes);
                go_on(Stage::Streaming, Action::Forward(bytes))
            },
            Event::BodyFailed => Step {
                stage: Stage::Done,
                action: Action::Conclude(
                    Conclusion {
                        abort_upload: true,
                        insert: None,
                        release: false,
                        prefetch: false,
                        reply: Some(Err(AppError::bad_request("invalid request body"))),
                    },
                ),
                tally: counts_served(400),
            },
            Event::BodyEnd => go_on(Stage::Closing, Action::Close),
            _ => ignore(stage),
        },
        Stage::Closing => match event {
            Event::Closed(None, ms) => {
                let insert = if buffer.is_capped() {
                    None
                } else {
                    Some(
                        CacheEntry::new(
                            buffer.bytes(),
                            content_type_from_headers(content_type, path),
                        ),
                    )
                };
                Step {
                    stage: Stage::Done,
                    action: Action::Conclude(
                        Conclusion {
                            abort_upload: false,
                            insert,
                            release: false,
                            prefetch: false,
                            reply: Some(Ok(build_put_response())),
                        },
                    ),
                    tally: counts_success(ms, Some(200)),
                }
            },
            Event::Closed(Some(kind), ms) => {
                let error = AppError::from_store(kind);
                let tally = counts_failure(kind, ms, Some(error.status));
                reply_with(Err(error), tally)
            },
            _ => ignore(stage),
        },
        _ => ignore(stage),
    }
}

/// An upload that is not capped is inserted whole, and a cache that
/// admits it then answers a GET of the key from the cache, with the
/// uploaded bytes. A body shorter than the cap is never capped.
pub proof fn law_put_then_get_hits(
    path: Seq<char>,
    content_type: Option<Seq<char>>,
    cap: nat,
    chunks: Seq<Seq<u8>>,
    elapsed_ms: u64,
    items: Seq<Slot>,
    max: nat,
    key: KeyView,
)
    requires
        !fed(cap, chunks).capped,
        distinct_keys(items),
        admits(max, joined(chunks).len()),
    ensures
        ({
            let end = put_next(
                path,
                content_type,
                Stage::Closing,
                fed(cap, chunks),
                EventView::Closed(None, elapsed_ms),
            ).0;
            &&& end.action is Conclude
            &&& end.action->Conclude_0.insert is Some
            &&& end.action->Conclude_0.insert->Some_0.0 == joined(chunks)
            &&& end.action->Conclude_0.reply == Some(
                Ok::<ResponseView, (u16, Seq<char>)>(put_response()),
            )
            &&& ({
                let entry = end.action->Conclude_0.insert->Some_0;
                let found = lookup(after_put(items, max, key, entry), key);
                let hit = get_next(path, Stage::Looking, EventView::Cache(found));
                &&& found == Some(entry)
                &&& hit.action is Conclude
                &&& hit.action->Conclude_0.reply == Some(
                    Ok::<ResponseView, (u16, Seq<char>)>(object_response(entry, true)),
                )
                &&& object_response(entry, true).cache_hit == Some(true)
                &&& object_response(entry, true).body == joined(chunks)
            })
        }),
        cap > 0 && joined(chunks).len() < cap ==> !fed(cap, chunks).capped,
{
    law_prefix_of_body(cap, chunks);
    let entry = (fed(cap, chunks).buffer, upload_type(content_type, mime_of_path(path)));
    crate::cache::memory::law_put_then_get_hits(items, max, key, entry);
}

/// An upload longer than the cap succeeds and inserts nothing. A GET
/// that then finds nothing in the cache is answered from upstream, as a
/// miss, with the bytes that upstream gave.
pub proof fn law_put_over_cap_then_get_misses(
    path: Seq<char>,
    content_type: Option<Seq<char>>,
    cap: nat,
    chunks: Seq<Seq<u8>>,
    elapsed_ms: u64,
    stored: Seq<u8>,
)
    requires
        joined(chunks).len() > cap,
        path_is_valid(path),
    ensures
        ({
            let end = put_next(
                path,
                content_type,
                Stage::Closing,
                fed(cap, chunks),
                EventView::Closed(None, elapsed_ms),
            ).0;
            &&& end.action is Conclude
            &&& end.action->Conclude_0.insert is None
            &&& end.action->Conclude_0.reply == Some(
                Ok::<ResponseView, (u16, Seq<char>)>(put_response()),
            )
        }),
        get_next(path, Stage::Start, EventView::Begin).action == ActionView::Lookup,
        get_next(path, Stage::Looking, EventView::Cache(None)).action == ActionView::Acquire,
        get_next(path, Stage::Acquiring, EventView::Permit(true)).action == ActionView::Fetch,
        ({
            let end = get_next(
                path,
                Stage::Leading,
                EventView::Fetched(FetchedView::Object(stored), elapsed_ms),
            );
            &&& end.action is Conclude
            &&& end.action->Conclude_0.reply is Some
            &&& end.action->Conclude_0.reply->Some_0 is Ok
            &&& end.action->Conclude_0.reply->Some_0->Ok_0.status == 200
            &&& end.action->Conclude_0.reply->Some_0->Ok_0.cache_hit == Some(false)
            &&& end.action->Conclude_0.reply->Some_0->Ok_0.body == stored
        }),
{
    law_prefix_of_body(cap, chunks);
}

/// While a fetch of a key is in flight, another GET of the key does not
/// fetch: it is handed the entry in flight, waits, and looks again; if
/// the leader's object is then in the cache, it answers from the cache.
/// Only the leader's step after the fetch releases the entry.
pub proof fn law_one_fetch_per_key(
    path: Seq<char>,
    flights: Flights,
    issued: nat,
    key: KeyView,
    entry: EntryView,
)
    requires
        one_entry_per_key(flights),
        issued < u64::MAX,
    ensures
        ({
            let first = acquired(flights, issued, key);
            let second = acquired(first.0, first.1, key);
            &&& second.2 is Follower
            &&& second.0 == first.0
        }),
        get_next(path, Stage::Acquiring, EventView::Permit(false)) == proceed(
            Stage::Waiting,
            ActionView::Wait,
            no_tally(),
        ),
        get_next(path, Stage::Waiting, EventView::Woken) == proceed(
            Stage::Rechecking,
            ActionView::Lookup,
            no_tally(),
        ),
        get_next(path, Stage::Rechecking, EventView::Cache(Some(entry))) == concluded(
            answer(Ok(object_response(entry, true))),
            served(200),
        ),
        forall|outcome: FetchedView, ms: u64|
            (#[trigger] get_next(
                path,
                Stage::Leading,
                EventView::Fetched(outcome, ms),
            )).action->Conclude_0.release,
{
    crate::inflight::law_second_acquire_follows(flights, issued, key);
}

} // verus!
