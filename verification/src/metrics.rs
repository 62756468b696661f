//! What is counted: the kinds of upstream failure, the latency buckets,
//! and the snapshot of the counters.

use vstd::prelude::*;

verus! {

/// The kinds under which upstream failures are counted.
#[derive(Debug, Clone, Copy, PartialEq, Eq, Structural)]
pub enum UpstreamErrorKind {
    NotFound,
    PermissionDenied,
    Unauthenticated,
    NotSupported,
    Precondition,
    Other,
}

/// `object_store::Error`: what an upstream call fails with.
#[verifier::external_type_specification]
#[verifier::external_body]
pub struct ExStoreError(object_store::Error);

impl UpstreamErrorKind {
    /// The label of the kind.
    pub open spec fn label(self) -> Seq<char> {
        match self {
            UpstreamErrorKind::NotFound => "not_found"@,
            UpstreamErrorKind::PermissionDenied => "permission_denied"@,
            UpstreamErrorKind::Unauthenticated => "unauthenticated"@,
            UpstreamErrorKind::NotSupported => "not_supported"@,
            UpstreamErrorKind::Precondition => "precondition"@,
            UpstreamErrorKind::Other => "other"@,
        }
    }

    /// Tells the variants of `object_store::Error` apart: the five that
    /// have a kind of their own, and every other one as `Other`.
    #[verifier::external_body]
    pub fn from_store_error(error: &object_store::Error) -> Self {
        match error {
            object_store::Error::NotFound { .. } => UpstreamErrorKind::NotFound,
            object_store::Error::PermissionDenied { .. } => UpstreamErrorKind::PermissionDenied,
            object_store::Error::Unauthenticated { .. } => UpstreamErrorKind::Unauthenticated,
            object_store::Error::NotSupported { .. } => UpstreamErrorKind::NotSupported,
            object_store::Error::Precondition { .. } => UpstreamErrorKind::Precondition,
            _ => UpstreamErrorKind::Other,
        }
    }

    pub fn as_str(self) -> (r: &'static str)
        ensures
            r@ == self.label(),
    {
        match self {
            UpstreamErrorKind::NotFound => "not_found",
            UpstreamErrorKind::PermissionDenied => "permission_denied",
            UpstreamErrorKind::Unauthenticated => "unauthenticated",
            UpstreamErrorKind::NotSupported => "not_supported",
            UpstreamErrorKind::Precondition => "precondition",
            UpstreamErrorKind::Other => "other",
        }
    }
}

/// The upper bounds, in milliseconds, of the buckets of the upstream
/// latency histogram.
pub open spec fn latency_bounds() -> Seq<u64> {
    seq![1u64, 5, 10, 25, 50, 100, 250, 500, 1000, 2000, 5000]
}

/// The bounds of the latency buckets, in rising order.
pub fn latency_buckets_ms() -> (r: Vec<u64>)
    ensures
        r@ == latency_bounds(),
        forall|i: int, j: int| 0 <= i < j < r@.len() ==> r@[i] < r@[j],
{
    let mut r: Vec<u64> = Vec::new();
    r.push(1);
    r.push(5);
    r.push(10);
    r.push(25);
    r.push(50);
    r.push(100);
    r.push(250);
    r.push(500);
    r.push(1000);
    r.push(2000);
    r.push(5000);
    assert(r@ =~= latency_bounds());
    r
}

/// The sums of the counters at one moment.
#[derive(Debug, Clone, Copy, PartialEq, Eq)]
pub struct MetricsSnapshot {
    pub requests_total: u64,
    pub auth_fail_total: u64,
    pub cache_hit_total: u64,
    pub cache_miss_total: u64,
    pub upstream_ok_total: u64,
    pub upstream_err_total: u64,
    pub cache_entries: u64,
    pub cache_bytes: u64,
}

/// The counters that the gateway keeps.
#[derive(Debug, Clone, Copy, PartialEq, Eq, Structural)]
pub enum Counter {
    Requests,
    AuthFail,
    CacheHit,
    CacheMiss,
    UpstreamOk,
    UpstreamErr,
}

impl Counter {
    /// The name under which the counter is exported.
    pub open spec fn label(self) -> Seq<char> {
        match self {
            Counter::Requests => "cachegate_requests_total"@,
            Counter::AuthFail => "cachegate_auth_fail_total"@,
            Counter::CacheHit => "cachegate_cache_hit_total"@,
            Counter::CacheMiss => "cachegate_cache_miss_total"@,
            Counter::UpstreamOk => "cachegate_upstream_ok_total"@,
            Counter::UpstreamErr => "cachegate_upstream_err_total"@,
        }
    }

    /// The labels of the counter. Every counter is labelled by the HTTP
    /// method; requests also by status, upstream errors also by kind.
    pub open spec fn label_names(self) -> Seq<Seq<char>> {
        match self {
            Counter::Requests => seq!["method"@, "status"@],
            Counter::UpstreamErr => seq!["method"@, "error_kind"@],
            _ => seq!["method"@],
        }
    }

    pub fn name(self) -> (r: &'static str)
        ensures
            r@ == self.label(),
    {
        match self {
            Counter::Requests => "cachegate_requests_total",
            Counter::AuthFail => "cachegate_auth_fail_total",
            Counter::CacheHit => "cachegate_cache_hit_total",
            Counter::CacheMiss => "cachegate_cache_miss_total",
            Counter::UpstreamOk => "cachegate_upstream_ok_total",
            Counter::UpstreamErr => "cachegate_upstream_err_total",
        }
    }

    /// What the counter counts, in words.
    pub fn help(self) -> (r: &'static str)
        ensures
            r@ == match self {
                Counter::Requests => "Total requests served by cachegate"@,
                Counter::AuthFail => "Total authentication failures"@,
                Counter::CacheHit => "Total cache hits"@,
                Counter::CacheMiss => "Total cache misses"@,
                Counter::UpstreamOk => "Total upstream successes"@,
                Counter::UpstreamErr => "Total upstream errors"@,
            },
    {
        match self {
            Counter::Requests => "Total requests served by cachegate",
            Counter::AuthFail => "Total authentication failures",
            Counter::CacheHit => "Total cache hits",
            Counter::CacheMiss => "Total cache misses",
            Counter::UpstreamOk => "Total upstream successes",
            Counter::UpstreamErr => "Total upstream errors",
        }
    }

    pub fn labels(self) -> (r: Vec<&'static str>)
        ensures
            r@.len() == self.label_names().len(),
            forall|i: int| 0 <= i < r@.len() ==> (#[trigger] r@[i])@ == self.label_names()[i],
    {
        let mut r: Vec<&'static str> = Vec::new();
        r.push("method");
        match self {
            Counter::Requests => {
                r.push("status");
            },
            Counter::UpstreamErr => {
                r.push("error_kind");
            },
            _ => {},
        }
        r
    }
}

/// The name of the histogram of upstream latencies, which is labelled by
/// the HTTP method.
pub fn latency_histogram_name() -> (r: &'static str)
    ensures
        r@ == "cachegate_upstream_latency_ms"@,
{
    "cachegate_upstream_latency_ms"
}

} // verus!
