//! Ephemeral counter cache whose entries expire on their own, keyed by string.
use vstd::prelude::*;

verus! {

/// Seconds a rate-limit entry stays alive after it was set.
pub const RATE_LIMIT_TTL: u64 = 300;

/// One stored counter: its key, its value and the instant (in seconds) from
/// which it no longer exists.
pub struct CacheEntry {
    pub key: String,
    pub value: u16,
    pub expires_at: u64,
}

/// A key-value store of small counters whose entries expire on their own.
pub struct MemCache {
    entries: Vec<CacheEntry>,
}

/// What the cache holds for `key` at instant `now`: the value of an entry
/// that has not expired yet, or nothing.
pub open spec fn live_value(m: Map<Seq<char>, (u16, u64)>, key: Seq<char>, now: u64) -> Option<
    u16,
> {
    if m.contains_key(key) && now < m[key].1 {
        Some(m[key].0)
    } else {
        None
    }
}

impl MemCache {
    /// Every key is stored once; the map of keys to (value, expiry).
    pub closed spec fn wf(&self) -> bool {
        forall|i: int, j: int|
            0 <= i < j < self.entries@.len() ==> #[trigger] self.entries@[i].key@
                != #[trigger] self.entries@[j].key@
    }

    pub closed spec fn view(&self) -> Map<Seq<char>, (u16, u64)> {
        Map::new(
            |k: Seq<char>| exists|i: int| 0 <= i < self.entries@.len() && self.entries@[i].key@ == k,
            |k: Seq<char>|
                {
                    let i = choose|i: int| 0 <= i < self.entries@.len() && self.entries@[i].key@ == k;
                    (self.entries@[i].value, self.entries@[i].expires_at)
                },
        )
    }

    /// An empty cache.
    pub fn new() -> (r: MemCache)
        ensures
            r.wf(),
            r@ == Map::<Seq<char>, (u16, u64)>::empty(),
    {
        let r = MemCache { entries: Vec::new() };
        assert(r@ =~= Map::<Seq<char>, (u16, u64)>::empty());
        r
    }

    /// Position of the entry stored under `key`, if any.
    fn position(&self, key: &String) -> (r: Option<usize>)
        requires
            self.wf(),
        ensures
            match r {
                Some(i) => i < self.entries@.len() && self.entries@[i as int].key@ == key@,
                None => !self@.contains_key(key@),
            },
    {
        let mut i: usize = 0;
        while i < self.entries.len()
            invariant
                i <= self.entries@.len(),
                forall|j: int| 0 <= j < i ==> self.entries@[j].key@ != key@,
            decreases self.entries@.len() - i,
        {
            if self.entries[i].key == *key {
                return Some(i);
            }
            i = i + 1;
        }
        None
    }

    /// The entry at `i` is what the map holds for its key.
    proof fn lemma_entry_in_view(&self, i: int)
        requires
            self.wf(),
            0 <= i < self.entries@.len(),
        ensures
            self@.contains_key(self.entries@[i].key@),
            self@[self.entries@[i].key@] == (self.entries@[i].value, self.entries@[i].expires_at),
    {
        let k = self.entries@[i].key@;
        assert(exists|j: int| 0 <= j < self.entries@.len() && self.entries@[j].key@ == k);
        let j = choose|j: int| 0 <= j < self.entries@.len() && self.entries@[j].key@ == k;
        if j != i {
            if j < i {
                assert(self.entries@[j].key@ != self.entries@[i].key@);
            } else {
                assert(self.entries@[i].key@ != self.entries@[j].key@);
            }
        }
    }
}

impl MemCache {
    /// Drops every entry that has expired at instant `now`; what the cache
    /// holds from `now` on is unchanged.
    pub fn evict_expired(&mut self, now: u64)
        requires
            old(self).wf(),
        ensures
            final(self).wf(),
            forall|k: Seq<char>| #[trigger]
                final(self)@.contains_key(k) <==> (old(self)@.contains_key(k) && now < old(
                    self,
                )@[k].1),
            forall|k: Seq<char>| #[trigger]
                final(self)@.contains_key(k) ==> final(self)@[k] == old(self)@[k],
            forall|k: Seq<char>, t: u64|
                t >= now ==> #[trigger] live_value(final(self)@, k, t) == live_value(
                    old(self)@,
                    k,
                    t,
                ),
    {
        let ghost before = *self;
        let mut kept: Vec<CacheEntry> = Vec::new();
        let ghost mut idx: Seq<int> = Seq::empty();
        let mut i: usize = 0;
        while i < self.entries.len()
            invariant
                *self == before,
                before.wf(),
                i <= self.entries@.len(),
                idx.len() == kept@.len(),
                forall|m: int| 0 <= m < idx.len() ==> 0 <= #[trigger] idx[m] < i,
                forall|m: int, n: int| 0 <= m < n < idx.len() ==> #[trigger] idx[m] < #[trigger] idx[n],
                forall|m: int|
                    0 <= m < idx.len() ==> #[trigger] kept@[m].key@ == self.entries@[idx[m]].key@
                        && kept@[m].value == self.entries@[idx[m]].value && kept@[m].expires_at
                        == self.entries@[idx[m]].expires_at && now < kept@[m].expires_at,
                forall|j: int|
                    0 <= j < i && now < #[trigger] self.entries@[j].expires_at ==> exists|m: int|
                        0 <= m < idx.len() && idx[m] == j,
            decreases self.entries@.len() - i,
        {
            let ghost old_kept = kept@;
            let ghost old_idx = idx;
            if now < self.entries[i].expires_at {
                let e = &self.entries[i];
                kept.push(CacheEntry { key: e.key.clone(), value: e.value, expires_at: e.expires_at });
                proof {
                    idx = idx.push(i as int);
                    assert forall|m: int| 0 <= m < old_idx.len() implies kept@[m] == old_kept[m]
                        && idx[m] == old_idx[m] by {}
                    assert forall|j: int|
                        0 <= j < i + 1 && now < #[trigger] self.entries@[j].expires_at implies exists|
                        m: int,
                    | 0 <= m < idx.len() && idx[m] == j by {
                        if j == i {
                            assert(idx[idx.len() - 1] == j);
                        } else {
                            let m = choose|m: int| 0 <= m < old_idx.len() && old_idx[m] == j;
                            assert(idx[m] == j);
                        }
                    }
                }
            }
            i = i + 1;
        }
        self.entries = kept;
        proof {
            assert forall|a: int, b: int|
                0 <= a < b < self.entries@.len() implies #[trigger] self.entries@[a].key@
                != #[trigger] self.entries@[b].key@ by {
                assert(idx[a] < idx[b]);
                assert(before.entries@[idx[a]].key@ != before.entries@[idx[b]].key@);
            }
            assert forall|k: Seq<char>| #[trigger]
                self@.contains_key(k) <==> (before@.contains_key(k) && now < before@[k].1) by {
                if self@.contains_key(k) {
                    let m = choose|m: int| 0 <= m < self.entries@.len() && self.entries@[m].key@ == k;
                    before.lemma_entry_in_view(idx[m]);
                }
                if before@.contains_key(k) && now < before@[k].1 {
                    let j = choose|j: int|
                        0 <= j < before.entries@.len() && before.entries@[j].key@ == k;
                    before.lemma_entry_in_view(j);
                    let m = choose|m: int| 0 <= m < idx.len() && idx[m] == j;
                    assert(self.entries@[m].key@ == k);
                }
            }
            assert forall|k: Seq<char>| #[trigger] self@.contains_key(k) implies self@[k]
                == before@[k] by {
                let m = choose|m: int| 0 <= m < self.entries@.len() && self.entries@[m].key@ == k;
                self.lemma_entry_in_view(m);
                before.lemma_entry_in_view(idx[m]);
            }
            assert forall|k: Seq<char>, t: u64| t >= now implies #[trigger] live_value(
                self@,
                k,
                t,
            ) == live_value(before@, k, t) by {
                if self@.contains_key(k) {
                    let m = choose|m: int| 0 <= m < self.entries@.len() && self.entries@[m].key@ == k;
                    self.lemma_entry_in_view(m);
                    before.lemma_entry_in_view(idx[m]);
                }
            }
        }
    }
}

impl View for MemCache {
    type V = Map<Seq<char>, (u16, u64)>;

    closed spec fn view(&self) -> Self::V {
        MemCache::view(self)
    }
}

/// The value stored under `key` at instant `now`, if its entry is still alive.
pub fn get(cache: &MemCache, key: &String, now: u64) -> (r: Option<u16>)
    requires
        cache.wf(),
    ensures
        r == live_value(cache@, key@, now),
{
    match cache.position(key) {
        Some(i) => {
            proof {
                cache.lemma_entry_in_view(i as int);
            }
            if now < cache.entries[i].expires_at {
                Some(cache.entries[i].value)
            } else {
                None
            }
        },
        None => None,
    }
}

/// Stores `value` under `key` at instant `now`, alive for `RATE_LIMIT_TTL`
/// seconds; an earlier entry under the same key is replaced.
pub fn set(cache: &mut MemCache, key: String, value: u16, now: u64)
    requires
        old(cache).wf(),
        now + RATE_LIMIT_TTL <= u64::MAX,
    ensures
        final(cache).wf(),
        final(cache)@ == old(cache)@.insert(key@, (value, (now + RATE_LIMIT_TTL) as u64)),
{
    let expires_at: u64 = now + RATE_LIMIT_TTL;
    let ghost k = key@;
    let ghost before = *cache;
    match cache.position(&key) {
        Some(i) => {
            cache.entries.set(i, CacheEntry { key, value, expires_at });
            proof {
                assert forall|a: int, b: int|
                    0 <= a < b < cache.entries@.len() implies #[trigger] cache.entries@[a].key@
                    != #[trigger] cache.entries@[b].key@ by {
                    assert(before.entries@[a].key@ != before.entries@[b].key@);
                }
                assert forall|q: Seq<char>| #[trigger]
                    cache@.contains_key(q) == before@.insert(k, (value, expires_at)).contains_key(
                        q,
                    ) by {
                    if q != k {
                        if cache@.contains_key(q) {
                            let j = choose|j: int|
                                0 <= j < cache.entries@.len() && cache.entries@[j].key@ == q;
                            assert(j != i);
                            assert(before.entries@[j].key@ == q);
                        }
                        if before@.contains_key(q) {
                            let j = choose|j: int|
                                0 <= j < before.entries@.len() && before.entries@[j].key@ == q;
                            assert(cache.entries@[j].key@ == q);
                        }
                    } else {
                        assert(cache.entries@[i as int].key@ == q);
                    }
                }
                assert forall|q: Seq<char>| #[trigger] cache@.contains_key(q) implies cache@[q]
                    == before@.insert(k, (value, expires_at))[q] by {
                    let j = choose|j: int|
                        0 <= j < cache.entries@.len() && cache.entries@[j].key@ == q;
                    cache.lemma_entry_in_view(j);
                    if q != k {
                        before.lemma_entry_in_view(j);
                    }
                }
                assert(cache@ =~= before@.insert(k, (value, expires_at)));
            }
        },
        None => {
            cache.entries.push(CacheEntry { key, value, expires_at });
            proof {
                let n = before.entries@.len() as int;
                assert forall|a: int, b: int|
                    0 <= a < b < cache.entries@.len() implies #[trigger] cache.entries@[a].key@
                    != #[trigger] cache.entries@[b].key@ by {
                    if b < n {
                        assert(before.entries@[a].key@ != before.entries@[b].key@);
                    } else {
                        assert(before@.contains_key(before.entries@[a].key@));
                    }
                }
                assert forall|q: Seq<char>| #[trigger]
                    cache@.contains_key(q) == before@.insert(k, (value, expires_at)).contains_key(
                        q,
                    ) by {
                    if cache@.contains_key(q) && q != k {
                        let j = choose|j: int|
                            0 <= j < cache.entries@.len() && cache.entries@[j].key@ == q;
                        assert(j < n);
                        assert(before.entries@[j].key@ == q);
                    }
                    if before@.contains_key(q) {
                        let j = choose|j: int|
                            0 <= j < before.entries@.len() && before.entries@[j].key@ == q;
                        assert(cache.entries@[j].key@ == q);
                    }
                    if q == k {
                        assert(cache.entries@[n].key@ == q);
                    }
                }
                assert forall|q: Seq<char>| #[trigger] cache@.contains_key(q) implies cache@[q]
                    == before@.insert(k, (value, expires_at))[q] by {
                    let j = choose|j: int|
                        0 <= j < cache.entries@.len() && cache.entries@[j].key@ == q;
                    cache.lemma_entry_in_view(j);
                    if q != k {
                        before.lemma_entry_in_view(j);
                    }
                }
                assert(cache@ =~= before@.insert(k, (value, expires_at)));
            }
        },
    }
}

} // verus!
