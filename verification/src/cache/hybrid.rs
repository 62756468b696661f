//! The hybrid backend: a memory tier in front of a disk tier.
//!
//! The tiers themselves are the work of the cache engine that the caller
//! runs. Here is what the gateway decides: how the engine is set up from
//! the policy, and the count of insertions.

use crate::cache::CacheStats;
use crate::config::{CachePolicy, CachePolicyView};
use crate::text::{chars_of, string_of};
use vstd::prelude::*;

verus! {

/// The number of shards that the key space is divided into.
pub const SHARDS: usize = 10;

/// The disk tier: where it lives and how many bytes it may hold.
#[derive(Debug, Clone)]
pub struct DiskTier {
    pub path: String,
    pub capacity: u64,
}

/// How the engine is set up. Entries are written to both tiers on
/// insertion, and evicted in insertion order with one probation queue in
/// front of the main queue.
#[derive(Debug, Clone)]
pub struct HybridPlan {
    pub memory_bytes: u64,
    pub shards: usize,
    /// The disk tier, or `None` for a cache in memory only.
    pub disk: Option<DiskTier>,
    /// Whether a disk path was configured but is not used.
    pub disk_path_ignored: bool,
}

/// A `HybridPlan` as mathematical values.
pub struct HybridPlanView {
    pub memory_bytes: u64,
    pub shards: usize,
    pub disk: Option<(Seq<char>, u64)>,
    pub disk_path_ignored: bool,
}

impl View for HybridPlan {
    type V = HybridPlanView;

    open spec fn view(&self) -> HybridPlanView {
        HybridPlanView {
            memory_bytes: self.memory_bytes,
            shards: self.shards,
            disk: match self.disk {
                Some(tier) => Some((tier.path@, tier.capacity)),
                None => None,
            },
            disk_path_ignored: self.disk_path_ignored,
        }
    }
}

/// Why a policy was refused.
#[derive(Debug, Clone, Copy, PartialEq, Eq, Structural)]
pub enum PolicyError {
    ZeroMemory,
}

impl PolicyError {
    /// The sentence that describes the error.
    pub open spec fn text(self) -> Seq<char> {
        "Bad policy: 0 max_bytes_memory"@
    }

    pub fn message(&self) -> (r: &'static str)
        ensures
            r@ == self.text(),
    {
        "Bad policy: 0 max_bytes_memory"
    }
}

/// The set-up for a policy. A memory tier of zero bytes is refused.
/// Without a disk capacity the cache lives in memory only, and a disk
/// path, if one is configured, is ignored. With a capacity the disk tier
/// lives at the configured path, or at `/tmp/cachegate_cache`.
pub open spec fn hybrid_plan(policy: CachePolicyView) -> Result<HybridPlanView, PolicyError> {
    if policy.max_memory == 0 {
        Err(PolicyError::ZeroMemory)
    } else if policy.max_disk == 0 {
        Ok(
            HybridPlanView {
                memory_bytes: policy.max_memory,
                shards: SHARDS,
                disk: None,
                disk_path_ignored: policy.disk_path is Some,
            },
        )
    } else {
        Ok(
            HybridPlanView {
                memory_bytes: policy.max_memory,
                shards: SHARDS,
                disk: Some(
                    (
                        match policy.disk_path {
                            Some(path) => path,
                            None => "/tmp/cachegate_cache"@,
                        },
                        policy.max_disk,
                    ),
                ),
                disk_path_ignored: false,
            },
        )
    }
}

/// Whether a policy asks for the hybrid backend: it does as soon as it
/// names a disk capacity or a disk path.
pub open spec fn wants_hybrid(policy: CachePolicyView) -> bool {
    policy.max_disk > 0 || policy.disk_path is Some
}

/// Whether a policy asks for the hybrid backend.
pub fn uses_hybrid(policy: &CachePolicy) -> (r: bool)
    ensures
        r == wants_hybrid(policy@),
{
    policy.max_disk > 0 || policy.disk_path.is_some()
}

/// The gateway's side of the hybrid backend.
#[derive(Debug, Clone)]
pub struct FoyerCache {
    plan: HybridPlan,
    inserts: u64,
}

impl FoyerCache {
    /// How the engine is set up.
    pub closed spec fn plan_view(&self) -> HybridPlanView {
        self.plan@
    }

    /// The number of insertions so far, up to the largest `u64`.
    pub closed spec fn inserts(&self) -> nat {
        self.inserts as nat
    }

    pub fn new(policy: CachePolicy) -> (r: Result<FoyerCache, PolicyError>)
        ensures
            match r {
                Ok(cache) => hybrid_plan(policy@) == Ok::<HybridPlanView, PolicyError>(
                    cache.plan_view(),
                ) && cache.inserts() == 0,
                Err(e) => hybrid_plan(policy@) == Err::<HybridPlanView, PolicyError>(e),
            },
    {
        if policy.max_memory == 0 {
            return Err(PolicyError::ZeroMemory);
        }
        let plan = if policy.max_disk == 0 {
            HybridPlan {
                memory_bytes: policy.max_memory,
                shards: SHARDS,
                disk: None,
                disk_path_ignored: policy.disk_path.is_some(),
            }
        } else {
            let path = match policy.disk_path {
                Some(path) => path,
                None => string_of(&chars_of("/tmp/cachegate_cache")),
            };
            HybridPlan {
                memory_bytes: policy.max_memory,
                shards: SHARDS,
                disk: Some(DiskTier { path, capacity: policy.max_disk }),
                disk_path_ignored: false,
            }
        };
        Ok(FoyerCache { plan, inserts: 0 })
    }

    /// The set-up of the engine.
    pub fn plan(&self) -> (r: &HybridPlan)
        ensures
            r@ == self.plan_view(),
    {
        &self.plan
    }

    /// Counts one insertion.
    pub fn record_insert(&mut self)
        ensures
            final(self).plan_view() == old(self).plan_view(),
            final(self).inserts() == if old(self).inserts() < u64::MAX {
                old(self).inserts() + 1
            } else {
                old(self).inserts()
            },
    {
        if self.inserts < u64::MAX {
            self.inserts = self.inserts + 1;
        }
    }

    /// The counters: the insertions. The engine does not tell the number
    /// of entries or of bytes, which are given as zero.
    pub fn stats(&self) -> (r: CacheStats)
        ensures
            r.inserts == self.inserts(),
            r.entries == 0,
            r.total_bytes == 0,
    {
        CacheStats { inserts: self.inserts, entries: 0, total_bytes: 0 }
    }
}

} // verus!
