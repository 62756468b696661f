//! The cache: keys, entries, and the backends that hold them.

use vstd::prelude::*;

pub mod hybrid;
pub mod memory;

verus! {

/// A cache key as mathematical values: bucket id, then path.
pub type KeyView = (Seq<char>, Seq<char>);

/// A cache entry as mathematical values: the bytes, then the content type.
pub type EntryView = (Seq<u8>, Option<Seq<char>>);

/// The identity of a cached object: the bucket and the path in it.
#[derive(Debug, Clone)]
pub struct CacheKey {
    pub bucket_id: String,
    pub path: String,
}

impl View for CacheKey {
    type V = KeyView;

    open spec fn view(&self) -> KeyView {
        (self.bucket_id@, self.path@)
    }
}

impl CacheKey {
    pub fn new(bucket_id: String, path: String) -> (r: Self)
        ensures
            r@ == (bucket_id@, path@),
            r.bucket_id == bucket_id,
            r.path == path,
    {
        CacheKey { bucket_id, path }
    }

    /// A copy of the key.
    pub fn duplicate(&self) -> (r: Self)
        ensures
            r == *self,
    {
        CacheKey { bucket_id: self.bucket_id.clone(), path: self.path.clone() }
    }

    /// Whether two keys name the same object: the same bucket and the
    /// same path.
    pub fn same(&self, other: &CacheKey) -> (r: bool)
        ensures
            r == (self@ == other@),
    {
        crate::text::same_text(self.bucket_id.as_str(), other.bucket_id.as_str())
            && crate::text::same_text(self.path.as_str(), other.path.as_str())
    }
}

/// A cached payload and its content type. Readers get the entry as it was
/// admitted; nothing changes it afterwards.
#[derive(Debug, Clone)]
pub struct CacheEntry {
    pub bytes: Vec<u8>,
    pub content_type: Option<String>,
}

impl View for CacheEntry {
    type V = EntryView;

    open spec fn view(&self) -> EntryView {
        (self.bytes@, crate::text::opt_view(self.content_type))
    }
}

impl CacheEntry {
    /// A copy of the entry.
    pub fn duplicate(&self) -> (r: Self)
        ensures
            r@ == self@,
    {
        CacheEntry {
            bytes: self.bytes.clone(),
            content_type: crate::text::copy_opt(&self.content_type),
        }
    }

    pub fn new(bytes: Vec<u8>, content_type: Option<String>) -> (r: Self)
        ensures
            r@ == (bytes@, crate::text::opt_view(content_type)),
            r.bytes == bytes,
            r.content_type == content_type,
    {
        CacheEntry { bytes, content_type }
    }
}

/// Counters that a backend exposes.
#[derive(Debug, Clone, Copy, PartialEq, Eq)]
pub struct CacheStats {
    pub inserts: u64,
    pub entries: u64,
    pub total_bytes: u64,
}

} // verus!
