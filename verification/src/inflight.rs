//! The inflight coordinator: at most one fetch in flight per cache key.
//!
//! The table decides who leads and who follows. Waiting for a leader and
//! waking its followers is the caller's part: `release` says when to wake.

use crate::cache::{CacheKey, KeyView};
use vstd::prelude::*;

verus! {

/// One fetch in flight, known by the number it was created with.
#[derive(Debug, Clone, Copy, PartialEq, Eq, Structural)]
pub struct InflightEntry {
    pub id: u64,
}

/// What the leader of a fetch holds until it releases the entry.
#[derive(Debug)]
pub struct InflightGuard {
    pub key: CacheKey,
    pub entry: InflightEntry,
}

/// The answer to `acquire`: lead the fetch, or follow the one in flight.
#[derive(Debug)]
pub enum InflightPermit {
    Leader(InflightGuard),
    Follower(InflightEntry),
}

/// The role that a permit gives, and the entry it refers to.
pub enum Role {
    Leader(u64),
    Follower(u64),
}

impl InflightPermit {
    /// The permit as role and entry number.
    pub open spec fn role(&self) -> Role {
        match self {
            InflightPermit::Leader(guard) => Role::Leader(guard.entry.id),
            InflightPermit::Follower(entry) => Role::Follower(entry.id),
        }
    }
}

/// The entries in flight, each a key and the number of its entry.
pub type Flights = Seq<(KeyView, u64)>;

/// Index of the entry for `key`, or `flights.len()` if there is none.
pub open spec fn flight_index(flights: Flights, key: KeyView) -> int
    decreases flights.len(),
{
    if flights.len() == 0 {
        0
    } else if flights[0].0 == key {
        0
    } else {
        1 + flight_index(flights.drop_first(), key)
    }
}

/// The entry in flight for `key`, if there is one.
pub open spec fn holder(flights: Flights, key: KeyView) -> Option<u64> {
    let i = flight_index(flights, key);
    if 0 <= i < flights.len() {
        Some(flights[i].1)
    } else {
        None
    }
}

/// No key has two entries.
pub open spec fn one_entry_per_key(flights: Flights) -> bool {
    forall|i: int, j: int| 0 <= i < j < flights.len() ==> flights[i].0 != flights[j].0
}

/// Every entry in flight was created before `issued` entries had been.
pub open spec fn ids_below(flights: Flights, issued: nat) -> bool {
    forall|i: int| 0 <= i < flights.len() ==> (#[trigger] flights[i]).1 < issued
}

/// The table after `acquire(key)`, and the role given: with an entry in
/// flight the caller follows it and the table stays; without one a fresh
/// entry, numbered `issued`, is added and the caller leads.
pub open spec fn acquired(flights: Flights, issued: nat, key: KeyView) -> (Flights, nat, Role) {
    match holder(flights, key) {
        Some(id) => (flights, issued, Role::Follower(id)),
        None => (flights.push((key, issued as u64)), issued + 1, Role::Leader(issued as u64)),
    }
}

/// Whether `release(key, id)` removes an entry: only if the entry in
/// flight for `key` is the very entry `id`.
pub open spec fn releases(flights: Flights, key: KeyView, id: u64) -> bool {
    holder(flights, key) == Some(id)
}

/// The table after `release(key, id)`.
pub open spec fn released(flights: Flights, key: KeyView, id: u64) -> Flights {
    if releases(flights, key, id) {
        flights.remove(flight_index(flights, key))
    } else {
        flights
    }
}

/// `flight_index` is the least index that holds the key.
pub proof fn lemma_flight_index(flights: Flights, key: KeyView)
    ensures
        0 <= flight_index(flights, key) <= flights.len(),
        forall|k: int| 0 <= k < flight_index(flights, key) ==> (#[trigger] flights[k]).0 != key,
        flight_index(flights, key) < flights.len() ==> flights[flight_index(flights, key)].0
            == key,
    decreases flights.len(),
{
    if flights.len() > 0 && flights[0].0 != key {
        let t = flights.drop_first();
        lemma_flight_index(t, key);
        assert forall|k: int| 0 <= k < flight_index(flights, key) implies (
        #[trigger] flights[k]).0 != key by {
            if k > 0 {
                assert(flights[k] == t[k - 1]);
            }
        }
        assert(flight_index(flights, key) < flights.len() ==> flights[flight_index(flights, key)]
            == t[flight_index(t, key)]);
    }
}

/// An index with the defining property of `flight_index` is `flight_index`.
pub proof fn lemma_flight_index_is(flights: Flights, key: KeyView, i: int)
    requires
        0 <= i <= flights.len(),
        forall|k: int| 0 <= k < i ==> (#[trigger] flights[k]).0 != key,
        i < flights.len() ==> flights[i].0 == key,
    ensures
        flight_index(flights, key) == i,
{
    lemma_flight_index(flights, key);
    let j = flight_index(flights, key);
    if j < i {
        assert(flights[j].0 != key);
    } else if i < j {
        assert(flights[i].0 != key);
    }
}

/// The table of fetches in flight.
pub struct Inflight {
    entries: Vec<(CacheKey, u64)>,
    issued: u64,
}

impl Inflight {
    /// The entries in flight.
    pub closed spec fn flights(&self) -> Flights {
        self.entries@.map_values(|e: (CacheKey, u64)| (e.0@, e.1))
    }

    /// The number of entries created so far.
    pub closed spec fn issued(&self) -> nat {
        self.issued as nat
    }

    /// No key has two entries, and every entry is older than the next one
    /// to be created.
    pub open spec fn wf(&self) -> bool {
        one_entry_per_key(self.flights()) && ids_below(self.flights(), self.issued())
    }

    pub fn new() -> (r: Self)
        ensures
            r.wf(),
            r.flights() == Seq::<(KeyView, u64)>::empty(),
            r.issued() == 0,
    {
        let r = Inflight { entries: Vec::new(), issued: 0 };
        assert(r.flights() =~= Seq::<(KeyView, u64)>::empty());
        r
    }

    fn find(&self, key: &CacheKey) -> (i: usize)
        ensures
            i == flight_index(self.flights(), key@),
            i <= self.entries.len(),
            self.flights().len() == self.entries.len(),
    {
        let mut i: usize = 0;
        while i < self.entries.len() && !self.entries[i].0.same(key)
            invariant
                i <= self.entries.len(),
                forall|k: int| 0 <= k < i ==> (#[trigger] self.flights()[k]).0 != key@,
            decreases self.entries.len() - i,
        {
            i += 1;
        }
        proof {
            lemma_flight_index_is(self.flights(), key@, i as int);
        }
        i
    }

    /// Follows the entry in flight for `key`, or creates one and leads.
    pub fn acquire(&mut self, key: &CacheKey) -> (r: InflightPermit)
        requires
            old(self).wf(),
            old(self).issued() < u64::MAX,
        ensures
            final(self).wf(),
            (final(self).flights(), final(self).issued(), r.role()) == acquired(
                old(self).flights(),
                old(self).issued(),
                key@,
            ),
            r matches InflightPermit::Leader(guard) ==> guard.key@ == key@,
    {
        let i = self.find(key);
        if i < self.entries.len() {
            return InflightPermit::Follower(InflightEntry { id: self.entries[i].1 });
        }
        let id = self.issued;
        let ghost before = self.flights();
        self.entries.push((key.duplicate(), id));
        self.issued = id + 1;
        proof {
            lemma_flight_index(before, key@);
            assert(self.flights() =~= before.push((key@, id)));
        }
        InflightPermit::Leader(InflightGuard { key: key.duplicate(), entry: InflightEntry { id } })
    }

    /// Removes the entry for `key` if it is the entry `entry`, and says
    /// whether it did: the caller then wakes those who wait for it. A
    /// release by a holder whose entry is no longer in flight does nothing.
    pub fn release(&mut self, key: &CacheKey, entry: &InflightEntry) -> (woke: bool)
        requires
            old(self).wf(),
        ensures
            final(self).wf(),
            woke == releases(old(self).flights(), key@, entry.id),
            final(self).flights() == released(old(self).flights(), key@, entry.id),
            final(self).issued() == old(self).issued(),
    {
        let i = self.find(key);
        if i < self.entries.len() && self.entries[i].1 == entry.id {
            let ghost before = self.flights();
            self.entries.remove(i);
            proof {
                assert(self.flights() =~= before.remove(i as int));
                let after = self.flights();
                assert forall|a: int, b: int| 0 <= a < b < after.len() implies after[a].0
                    != after[b].0 by {
                    let a0 = if a < i { a } else { a + 1 };
                    let b0 = if b < i { b } else { b + 1 };
                    assert(after[a] == before[a0]);
                    assert(after[b] == before[b0]);
                }
                assert forall|a: int| 0 <= a < after.len() implies (#[trigger] after[a]).1
                    < self.issued() by {
                    let a0 = if a < i { a } else { a + 1 };
                    assert(after[a] == before[a0]);
                }
            }
            true
        } else {
            false
        }
    }

    /// Whether another entry can be created: entries are numbered, and
    /// the numbers must last.
    pub fn has_room(&self) -> (r: bool)
        ensures
            r == (self.issued() < u64::MAX),
    {
        self.issued < u64::MAX
    }

    /// The number of fetches in flight.
    pub fn len(&self) -> (n: usize)
        ensures
            n == self.flights().len(),
    {
        self.entries.len()
    }
}

impl InflightGuard {
    /// Releases the entry that this guard leads. Every way out of the
    /// leader's work ends here.
    pub fn complete(self, table: &mut Inflight) -> (woke: bool)
        requires
            old(table).wf(),
        ensures
            final(table).wf(),
            woke == releases(old(table).flights(), self.key@, self.entry.id),
            final(table).flights() == released(old(table).flights(), self.key@, self.entry.id),
            final(table).issued() == old(table).issued(),
    {
        table.release(&self.key, &self.entry)
    }
}

/// Of two acquisitions of one key with no release between them, the
/// second follows: whoever acquires first holds the only entry, as leader
/// or as follower, and the second is handed that same entry.
pub proof fn law_second_acquire_follows(flights: Flights, issued: nat, key: KeyView)
    requires
        one_entry_per_key(flights),
        issued < u64::MAX,
    ensures
        ({
            let first = acquired(flights, issued, key);
            let second = acquired(first.0, first.1, key);
            &&& second.0 == first.0
            &&& second.1 == first.1
            &&& match first.2 {
                Role::Leader(id) => second.2 == Role::Follower(id),
                Role::Follower(id) => second.2 == Role::Follower(id),
            }
        }),
{
    lemma_flight_index(flights, key);
    if holder(flights, key) is None {
        let next = flights.push((key, issued as u64));
        assert forall|k: int| 0 <= k < flights.len() implies (#[trigger] next[k]).0 != key by {
            assert(next[k] == flights[k]);
        }
        lemma_flight_index_is(next, key, flights.len() as int);
    }
}

/// The leader's release removes its entry, and the next acquisition of
/// the key leads again.
pub proof fn law_release_frees_key(flights: Flights, issued: nat, key: KeyView)
    requires
        one_entry_per_key(flights),
        holder(flights, key) is Some,
    ensures
        holder(released(flights, key, holder(flights, key)->Some_0), key) is None,
{
    lemma_flight_index(flights, key);
    let i = flight_index(flights, key);
    let after = flights.remove(i);
    assert forall|k: int| 0 <= k < after.len() implies (#[trigger] after[k]).0 != key by {
        if k < i {
            assert(after[k] == flights[k]);
        } else {
            assert(after[k] == flights[k + 1]);
        }
    }
    lemma_flight_index_is(after, key, after.len() as int);
}

/// A release by a holder whose entry has left the table changes nothing,
/// even when the key is in flight again: the entry that a later leader
/// creates has a number that no earlier entry had.
pub proof fn law_stale_release_is_noop(flights: Flights, issued: nat, key: KeyView, stale: u64)
    requires
        ids_below(flights, issued),
        issued < u64::MAX,
        stale < issued,
        holder(flights, key) is None,
    ensures
        ({
            let again = acquired(flights, issued, key);
            &&& again.2 == Role::Leader(issued as u64)
            &&& holder(again.0, key) == Some(issued as u64)
            &&& !releases(again.0, key, stale)
            &&& released(again.0, key, stale) == again.0
        }),
{
    lemma_flight_index(flights, key);
    let next = flights.push((key, issued as u64));
    assert forall|k: int| 0 <= k < flights.len() implies (#[trigger] next[k]).0 != key by {
        assert(next[k] == flights[k]);
    }
    lemma_flight_index_is(next, key, flights.len() as int);
}

} // verus!
