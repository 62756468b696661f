//! The memory-only backend: a byte-bounded map that evicts in order of
//! least recent use.

use crate::cache::{CacheEntry, CacheKey, CacheStats, EntryView, KeyView};
use crate::config::CachePolicy;
use crate::text::opt_view;
use vstd::prelude::*;

verus! {

/// One resident object: its key and its entry.
pub type Slot = (KeyView, EntryView);

/// `lru::LruCache`: a map that keeps its items in order of use.
#[verifier::external_type_specification]
#[verifier::external_body]
#[verifier::reject_recursive_types(K)]
#[verifier::reject_recursive_types(V)]
#[verifier::reject_recursive_types(S)]
pub struct ExLruCache<K, V, S>(lru::LruCache<K, V, S>);

/// `lru::DefaultHasher`: the hasher that an `LruCache` uses unless it is
/// given another.
#[verifier::external_type_specification]
#[verifier::external_body]
pub struct ExLruHasher(lru::DefaultHasher);

/// What the map holds, from the least recently used item to the most
/// recently used one.
pub uninterp spec fn lru_items(
    map: lru::LruCache<(String, String), (Vec<u8>, Option<String>)>,
) -> Seq<Slot>;

/// The number of items that the map was made to hold.
pub uninterp spec fn lru_limit(
    map: lru::LruCache<(String, String), (Vec<u8>, Option<String>)>,
) -> nat;

/// Index of the item with the key `key`, or `items.len()` if there is none.
pub open spec fn position(items: Seq<Slot>, key: KeyView) -> int
    decreases items.len(),
{
    if items.len() == 0 {
        0
    } else if items[0].0 == key {
        0
    } else {
        1 + position(items.drop_first(), key)
    }
}

/// `lru::LruCache::unbounded`: an empty map whose limit is the largest
/// `usize`.
#[verifier::external_body]
fn lru_new() -> (map: lru::LruCache<(String, String), (Vec<u8>, Option<String>)>)
    ensures
        lru_items(map) == Seq::<Slot>::empty(),
        lru_limit(map) == usize::MAX,
{
    lru::LruCache::unbounded()
}

/// `lru::LruCache::len`.
#[verifier::external_body]
fn lru_len(map: &lru::LruCache<(String, String), (Vec<u8>, Option<String>)>) -> (n: usize)
    ensures
        n == lru_items(*map).len(),
{
    map.len()
}

/// `lru::LruCache::get`: a copy of the value under `key`, which becomes
/// the most recently used item; without the key nothing changes.
#[verifier::external_body]
fn lru_get(
    map: &mut lru::LruCache<(String, String), (Vec<u8>, Option<String>)>,
    key: &CacheKey,
) -> (r: Option<CacheEntry>)
    ensures
        lru_limit(*final(map)) == lru_limit(*old(map)),
        ({
            let items = lru_items(*old(map));
            let i = position(items, key@);
            if 0 <= i < items.len() {
                r.is_some() && r.unwrap()@ == items[i].1 && lru_items(*final(map)) == items.remove(
                    i,
                ).push(items[i])
            } else {
                r.is_none() && lru_items(*final(map)) == items
            }
        }),
{
    let k = (key.bucket_id.clone(), key.path.clone());
    map.get(&k).map(|v| CacheEntry::new(v.0.clone(), v.1.clone()))
}

/// `lru::LruCache::pop`: removes the item under `key` and returns its
/// value; without the key nothing changes.
#[verifier::external_body]
fn lru_pop(
    map: &mut lru::LruCache<(String, String), (Vec<u8>, Option<String>)>,
    key: &CacheKey,
) -> (r: Option<CacheEntry>)
    ensures
        lru_limit(*final(map)) == lru_limit(*old(map)),
        ({
            let items = lru_items(*old(map));
            let i = position(items, key@);
            if 0 <= i < items.len() {
                r.is_some() && r.unwrap()@ == items[i].1 && lru_items(*final(map)) == items.remove(
                    i,
                )
            } else {
                r.is_none() && lru_items(*final(map)) == items
            }
        }),
{
    let k = (key.bucket_id.clone(), key.path.clone());
    map.pop(&k).map(|v| CacheEntry::new(v.0, v.1))
}

/// `lru::LruCache::put`: the pair becomes the most recently used item. It
/// takes the place of an item with the same key; otherwise, in a map
/// that is at its limit, the least recently used item leaves first.
#[verifier::external_body]
fn lru_put(
    map: &mut lru::LruCache<(String, String), (Vec<u8>, Option<String>)>,
    key: CacheKey,
    entry: CacheEntry,
)
    ensures
        lru_limit(*final(map)) == lru_limit(*old(map)),
        ({
            let items = lru_items(*old(map));
            let i = position(items, key@);
            let kept = if 0 <= i < items.len() {
                items.remove(i)
            } else if items.len() == lru_limit(*old(map)) {
                items.drop_first()
            } else {
                items
            };
            lru_items(*final(map)) == kept.push((key@, entry@))
        }),
{
    map.put((key.bucket_id, key.path), (entry.bytes, entry.content_type));
}

/// `lru::LruCache::pop_lru`: removes the least recently used item and
/// returns its value; `None` for an empty map.
#[verifier::external_body]
fn lru_pop_lru(map: &mut lru::LruCache<(String, String), (Vec<u8>, Option<String>)>) -> (r:
    Option<CacheEntry>)
    ensures
        lru_limit(*final(map)) == lru_limit(*old(map)),
        ({
            let items = lru_items(*old(map));
            if items.len() > 0 {
                r.is_some() && r.unwrap()@ == items[0].1 && lru_items(*final(map))
                    == items.drop_first()
            } else {
                r.is_none() && lru_items(*final(map)) == items
            }
        }),
{
    map.pop_lru().map(|kv| CacheEntry::new(kv.1.0, kv.1.1))
}

/// The bytes that the items hold together.
pub open spec fn resident(items: Seq<Slot>) -> nat
    decreases items.len(),
{
    if items.len() == 0 {
        0
    } else {
        items[0].1.0.len() + resident(items.drop_first())
    }
}

/// No key occurs twice.
pub open spec fn distinct_keys(items: Seq<Slot>) -> bool {
    forall|i: int, j: int| 0 <= i < j < items.len() ==> items[i].0 != items[j].0
}

/// The entry under `key`, if there is one.
pub open spec fn lookup(items: Seq<Slot>, key: KeyView) -> Option<EntryView> {
    let i = position(items, key);
    if 0 <= i < items.len() {
        Some(items[i].1)
    } else {
        None
    }
}

/// The items without the one under `key`.
pub open spec fn without(items: Seq<Slot>, key: KeyView) -> Seq<Slot> {
    let i = position(items, key);
    if 0 <= i < items.len() {
        items.remove(i)
    } else {
        items
    }
}

/// The items after a lookup of `key`: a hit becomes the most recently
/// used item.
pub open spec fn after_get(items: Seq<Slot>, key: KeyView) -> Seq<Slot> {
    let i = position(items, key);
    if 0 <= i < items.len() {
        items.remove(i).push(items[i])
    } else {
        items
    }
}

/// The items after eviction: least recently used items leave until the
/// rest fits in `max` bytes.
pub open spec fn evicted(items: Seq<Slot>, max: nat) -> Seq<Slot>
    decreases items.len(),
{
    if items.len() > 0 && resident(items) > max {
        evicted(items.drop_first(), max)
    } else {
        items
    }
}

/// Whether a payload of `size` bytes is admitted by a cache of `max` bytes.
pub open spec fn admits(max: nat, size: nat) -> bool {
    max > 0 && size <= max
}

/// The items after an insertion: an admitted entry takes the place of any
/// entry under the same key, becomes the most recently used item, and
/// eviction follows.
pub open spec fn after_put(items: Seq<Slot>, max: nat, key: KeyView, entry: EntryView) -> Seq<
    Slot,
> {
    if admits(max, entry.0.len()) {
        evicted(without(items, key).push((key, entry)), max)
    } else {
        items
    }
}

/// `position` is the least index that holds the key.
pub proof fn lemma_position(items: Seq<Slot>, key: KeyView)
    ensures
        0 <= position(items, key) <= items.len(),
        forall|k: int| 0 <= k < position(items, key) ==> (#[trigger] items[k]).0 != key,
        position(items, key) < items.len() ==> items[position(items, key)].0 == key,
    decreases items.len(),
{
    if items.len() > 0 && items[0].0 != key {
        let t = items.drop_first();
        lemma_position(t, key);
        assert forall|k: int| 0 <= k < position(items, key) implies (#[trigger] items[k]).0
            != key by {
            if k > 0 {
                assert(items[k] == t[k - 1]);
            }
        }
        assert(position(items, key) < items.len() ==> items[position(items, key)] == t[position(
            t,
            key,
        )]);
    }
}

/// An index with the defining property of `position` is `position`.
pub proof fn lemma_position_is(items: Seq<Slot>, key: KeyView, i: int)
    requires
        0 <= i <= items.len(),
        forall|k: int| 0 <= k < i ==> (#[trigger] items[k]).0 != key,
        i < items.len() ==> items[i].0 == key,
    ensures
        position(items, key) == i,
{
    lemma_position(items, key);
    let j = position(items, key);
    if j < i {
        assert(items[j].0 != key);
    } else if i < j {
        assert(items[i].0 != key);
    }
}

/// The bytes of a sequence with one more item at its end.
pub proof fn lemma_resident_push(items: Seq<Slot>, slot: Slot)
    ensures
        resident(items.push(slot)) == resident(items) + slot.1.0.len(),
    decreases items.len(),
{
    if items.len() == 0 {
        assert(items.push(slot).drop_first() =~= items);
    } else {
        assert(items.push(slot).drop_first() =~= items.drop_first().push(slot));
        lemma_resident_push(items.drop_first(), slot);
    }
}

/// The bytes of a sequence with one item taken out.
pub proof fn lemma_resident_remove(items: Seq<Slot>, i: int)
    requires
        0 <= i < items.len(),
    ensures
        resident(items.remove(i)) + items[i].1.0.len() == resident(items),
    decreases items.len(),
{
    if i == 0 {
        assert(items.remove(0) =~= items.drop_first());
    } else {
        assert(items.remove(i).drop_first() =~= items.drop_first().remove(i - 1));
        lemma_resident_remove(items.drop_first(), i - 1);
    }
}

/// Eviction leaves a tail of the items that fits in `max` bytes.
pub proof fn lemma_evicted(items: Seq<Slot>, max: nat)
    ensures
        resident(evicted(items, max)) <= max,
        evicted(items, max).len() <= items.len(),
        evicted(items, max) == items.skip(items.len() - evicted(items, max).len()),
        resident(items) <= max ==> evicted(items, max) == items,
    decreases items.len(),
{
    if items.len() > 0 && resident(items) > max {
        let t = items.drop_first();
        lemma_evicted(t, max);
        let n = evicted(t, max).len();
        assert(t.skip(t.len() - n) =~= items.skip(items.len() - n));
    } else {
        assert(items.skip(0) =~= items);
    }
}

/// Eviction never takes the most recently used item, if that item alone
/// fits in `max` bytes.
pub proof fn lemma_evicted_keeps_last(items: Seq<Slot>, slot: Slot, max: nat)
    requires
        slot.1.0.len() <= max,
    ensures
        evicted(items.push(slot), max).len() > 0,
        evicted(items.push(slot), max).last() == slot,
    decreases items.len(),
{
    let all = items.push(slot);
    if resident(all) > max {
        if items.len() == 0 {
            assert(all.drop_first() =~= Seq::<Slot>::empty());
            assert(resident(all.drop_first()) == 0);
        } else {
            assert(all.drop_first() =~= items.drop_first().push(slot));
            lemma_evicted_keeps_last(items.drop_first(), slot, max);
        }
    }
}

/// A tail of items with distinct keys has distinct keys.
pub proof fn lemma_distinct_skip(items: Seq<Slot>, n: int)
    requires
        distinct_keys(items),
        0 <= n <= items.len(),
    ensures
        distinct_keys(items.skip(n)),
{
    let t = items.skip(n);
    assert forall|i: int, j: int| 0 <= i < j < t.len() implies t[i].0 != t[j].0 by {
        assert(t[i] == items[i + n]);
        assert(t[j] == items[j + n]);
    }
}

/// Taking the item under `key` out and putting one under `key` at the end
/// keeps the keys distinct, and the new item is then the one under `key`.
pub proof fn lemma_replace(items: Seq<Slot>, key: KeyView, entry: EntryView)
    requires
        distinct_keys(items),
    ensures
        distinct_keys(without(items, key).push((key, entry))),
        position(without(items, key).push((key, entry)), key) == without(items, key).len(),
        forall|k: int| 0 <= k < without(items, key).len() ==> (#[trigger] without(items, key)[k]).0
            != key,
{
    lemma_position(items, key);
    let i = position(items, key);
    let rest = without(items, key);
    assert forall|k: int| 0 <= k < rest.len() implies (#[trigger] rest[k]).0 != key by {
        if i < items.len() {
            if k < i {
                assert(rest[k] == items[k]);
            } else {
                assert(rest[k] == items[k + 1]);
                assert(items[i].0 != items[k + 1].0);
            }
        }
    }
    let all = rest.push((key, entry));
    assert forall|a: int, b: int| 0 <= a < b < all.len() implies all[a].0 != all[b].0 by {
        if b < rest.len() {
            if i < items.len() {
                let a0 = if a < i { a } else { a + 1 };
                let b0 = if b < i { b } else { b + 1 };
                assert(rest[a] == items[a0]);
                assert(rest[b] == items[b0]);
            }
        } else {
            assert(all[a] == rest[a]);
        }
    }
    assert forall|k: int| 0 <= k < rest.len() implies (#[trigger] all[k]).0 != key by {
        assert(all[k] == rest[k]);
    }
    lemma_position_is(all, key, rest.len() as int);
}

/// The memory-only backend.
pub struct MemoryCache {
    lru: lru::LruCache<(String, String), (Vec<u8>, Option<String>)>,
    total_bytes: u64,
    max_bytes: u64,
    inserts: u64,
}

impl MemoryCache {
    /// The resident items, from the least recently used to the most
    /// recently used.
    pub closed spec fn items(&self) -> Seq<Slot> {
        lru_items(self.lru)
    }

    /// The byte cap.
    pub closed spec fn max_bytes(&self) -> nat {
        self.max_bytes as nat
    }

    /// The number of entries admitted so far, up to the largest `u64`.
    pub closed spec fn inserts(&self) -> nat {
        self.inserts as nat
    }

    /// No key is resident twice, the byte count is that of the resident
    /// items, and it is within the cap.
    pub closed spec fn wf(&self) -> bool {
        &&& distinct_keys(self.items())
        &&& self.total_bytes == resident(self.items())
        &&& self.total_bytes <= self.max_bytes
        &&& lru_limit(self.lru) == usize::MAX
    }

    /// The bytes resident in a well-formed cache never exceed its cap.
    pub proof fn law_within_cap(&self)
        requires
            self.wf(),
        ensures
            resident(self.items()) <= self.max_bytes(),
            distinct_keys(self.items()),
    {
    }

    /// An empty cache of `policy.max_memory` bytes.
    pub fn new(policy: CachePolicy) -> (r: Self)
        ensures
            r.wf(),
            r.items() == Seq::<Slot>::empty(),
            r.max_bytes() == policy.max_memory,
            r.inserts() == 0,
    {
        MemoryCache { lru: lru_new(), total_bytes: 0, max_bytes: policy.max_memory, inserts: 0 }
    }

    /// Looks `key` up. A hit becomes the most recently used item.
    pub fn get(&mut self, key: &CacheKey) -> (r: Option<CacheEntry>)
        requires
            old(self).wf(),
        ensures
            final(self).wf(),
            match r {
                Some(entry) => lookup(old(self).items(), key@) == Some(entry@),
                None => lookup(old(self).items(), key@) is None,
            },
            final(self).items() == after_get(old(self).items(), key@),
            final(self).max_bytes() == old(self).max_bytes(),
            final(self).inserts() == old(self).inserts(),
    {
        let ghost items = self.items();
        let r = lru_get(&mut self.lru, key);
        proof {
            lemma_position(items, key@);
            let i = position(items, key@);
            if i < items.len() {
                lemma_resident_remove(items, i);
                lemma_resident_push(items.remove(i), items[i]);
                let moved = items.remove(i).push(items[i]);
                assert forall|a: int, b: int| 0 <= a < b < moved.len() implies moved[a].0
                    != moved[b].0 by {
                    let a0 = if a < i { a } else { a + 1 };
                    let b0 = if b == moved.len() - 1 { i } else if b < i { b } else { b + 1 };
                    assert(moved[a] == items[a0]);
                    assert(moved[b] == items[b0]);
                }
            }
        }
        r
    }

    /// Admits the entry, if the cache is enabled and the payload fits the
    /// cap, then evicts until the resident bytes fit the cap again.
    pub fn put(&mut self, key: CacheKey, bytes: Vec<u8>, content_type: Option<String>)
        requires
            old(self).wf(),
            old(self).items().len() < usize::MAX,
        ensures
            final(self).wf(),
            final(self).items() == after_put(
                old(self).items(),
                old(self).max_bytes(),
                key@,
                (bytes@, opt_view(content_type)),
            ),
            final(self).max_bytes() == old(self).max_bytes(),
            final(self).inserts() == if admits(old(self).max_bytes(), bytes@.len()) {
                if old(self).inserts() < u64::MAX {
                    old(self).inserts() + 1
                } else {
                    old(self).inserts()
                }
            } else {
                old(self).inserts()
            },
    {
        let size: u64 = bytes.len() as u64;
        if self.max_bytes == 0 || size > self.max_bytes {
            return ;
        }
        let ghost items = self.items();
        let ghost slot: Slot = (key@, (bytes@, opt_view(content_type)));
        let mut total: u128 = self.total_bytes as u128;
        let removed = lru_pop(&mut self.lru, &key);
        proof {
            lemma_position(items, key@);
            lemma_replace(items, key@, slot.1);
            if position(items, key@) < items.len() {
                lemma_resident_remove(items, position(items, key@));
            }
        }
        match removed {
            Some(old_entry) => {
                total = total - old_entry.bytes.len() as u128;
            },
            None => {},
        }
        let ghost rest = without(items, key@);
        assert(self.items() == rest);
        assert(position(rest, key@) == rest.len()) by {
            lemma_position_is(rest, key@, rest.len() as int);
        }
        lru_put(&mut self.lru, key, CacheEntry::new(bytes, content_type));
        total = total + size as u128;
        let ghost full = rest.push(slot);
        proof {
            lemma_resident_push(rest, slot);
            lemma_evicted_keeps_last(rest, slot, self.max_bytes as nat);
            lemma_evicted(full, self.max_bytes as nat);
        }
        assert(self.items() == full);
        while total > self.max_bytes as u128
            invariant
                total == resident(self.items()),
                total <= u64::MAX + u64::MAX,
                evicted(self.items(), self.max_bytes as nat) == evicted(
                    full,
                    self.max_bytes as nat,
                ),
                lru_limit(self.lru) == usize::MAX,
                self.max_bytes == old(self).max_bytes,
                self.inserts == old(self).inserts,
            decreases self.items().len(),
        {
            let ghost before = self.items();
            match lru_pop_lru(&mut self.lru) {
                Some(gone) => {
                    assert(resident(before) == gone.bytes@.len() + resident(before.drop_first()));
                    total = total - gone.bytes.len() as u128;
                },
                None => {
                    assert(resident(before) == 0);
                },
            }
        }
        proof {
            let max = self.max_bytes as nat;
            lemma_evicted(self.items(), max);
            let n = evicted(full, max).len();
            lemma_distinct_skip(full, full.len() - n);
        }
        self.total_bytes = total as u64;
        if self.inserts < u64::MAX {
            self.inserts = self.inserts + 1;
        }
    }

    /// The number of resident entries.
    pub fn len(&self) -> (n: usize)
        ensures
            n == self.items().len(),
    {
        lru_len(&self.lru)
    }

    /// The counters of the cache.
    pub fn stats(&self) -> (r: CacheStats)
        requires
            self.wf(),
        ensures
            r.inserts == self.inserts(),
            r.entries == self.items().len(),
            r.total_bytes == resident(self.items()),
    {
        CacheStats {
            inserts: self.inserts,
            entries: lru_len(&self.lru) as u64,
            total_bytes: self.total_bytes,
        }
    }
}

/// After an insertion that the cache admits, a lookup of the same key
/// finds the entry that was inserted.
pub proof fn law_put_then_get_hits(items: Seq<Slot>, max: nat, key: KeyView, entry: EntryView)
    requires
        distinct_keys(items),
        admits(max, entry.0.len()),
    ensures
        lookup(after_put(items, max, key, entry), key) == Some(entry),
{
    let full = without(items, key).push((key, entry));
    lemma_replace(items, key, entry);
    lemma_evicted_keeps_last(without(items, key), (key, entry), max);
    lemma_evicted(full, max);
    let kept = evicted(full, max);
    let off = full.len() - kept.len();
    assert forall|k: int| 0 <= k < kept.len() - 1 implies (#[trigger] kept[k]).0 != key by {
        assert(kept[k] == full[k + off]);
        assert(full[k + off] == without(items, key)[k + off]);
    }
    lemma_position_is(kept, key, kept.len() - 1);
}

/// Whatever is inserted, the resident bytes stay within the cap.
pub proof fn law_resident_within_cap(items: Seq<Slot>, max: nat, key: KeyView, entry: EntryView)
    requires
        resident(items) <= max,
    ensures
        resident(after_put(items, max, key, entry)) <= max,
{
    lemma_evicted(without(items, key).push((key, entry)), max);
}

/// A payload larger than the cap is not admitted: the cache stays as it was.
pub proof fn law_oversized_is_skipped(items: Seq<Slot>, max: nat, key: KeyView, entry: EntryView)
    requires
        entry.0.len() > max,
    ensures
        after_put(items, max, key, entry) == items,
{
}

} // verus!
