use vstd::prelude::*;

use std::marker::PhantomData;
use std::time::UNIX_EPOCH;

use crate::keyed::{keys_unique, lemma_table_push, table_of, StrMap};

verus! {

/// Relies on `SystemTime::elapsed` of the Unix epoch: the wall clock in
/// milliseconds (0 for a clock set before the epoch). Nothing is promised of
/// the value.
#[verifier::external_body]
fn now_millis() -> (r: u64) {
    match UNIX_EPOCH.elapsed() {
        Ok(d) => d.as_millis() as u64,
        Err(_) => 0,
    }
}

/// `a + b`, or `u64::MAX` when that does not fit.
pub open spec fn saturating_sum(a: u64, b: u64) -> u64 {
    if a as int + b as int > u64::MAX as int {
        u64::MAX
    } else {
        (a + b) as u64
    }
}

fn add_saturating(a: u64, b: u64) -> (r: u64)
    ensures
        r == saturating_sum(a, b),
{
    if a > u64::MAX - b {
        u64::MAX
    } else {
        a + b
    }
}

/// `s * 1000`, or `u64::MAX` when that does not fit.
pub open spec fn millis_of_secs(s: u64) -> u64 {
    if s as int * 1000 > u64::MAX as int {
        u64::MAX
    } else {
        (s * 1000) as u64
    }
}

fn secs_to_millis(s: u64) -> (r: u64)
    ensures
        r == millis_of_secs(s),
{
    if s > u64::MAX / 1000 {
        u64::MAX
    } else {
        s * 1000
    }
}

/// A value with the time it was stored and how long it stays valid.
pub struct CacheEntry<T> {
    pub data: T,
    /// Wall-clock milliseconds at creation.
    pub created_at_ms: u64,
    pub ttl_seconds: u64,
}

impl<T> CacheEntry<T> {
    /// More than `ttl_seconds` have passed since creation at time `now_ms`.
    pub open spec fn expired_at(&self, now_ms: u64) -> bool {
        now_ms as int - self.created_at_ms as int > millis_of_secs(self.ttl_seconds) as int
    }

    /// An entry created now.
    pub fn new(data: T, ttl_seconds: u64) -> (r: Self)
        ensures
            r.data == data,
            r.ttl_seconds == ttl_seconds,
    {
        Self::new_at(data, ttl_seconds, now_millis())
    }

    pub fn new_at(data: T, ttl_seconds: u64, now_ms: u64) -> (r: Self)
        ensures
            r.data == data,
            r.ttl_seconds == ttl_seconds,
            r.created_at_ms == now_ms,
    {
        CacheEntry { data, created_at_ms: now_ms, ttl_seconds }
    }

    /// Whether the entry has outlived its time to live, now.
    pub fn is_expired(&self) -> (r: bool)
        ensures
            exists|now_ms: u64| r == self.expired_at(now_ms),
    {
        self.is_expired_at(now_millis())
    }

    pub fn is_expired_at(&self, now_ms: u64) -> (r: bool)
        ensures
            r == self.expired_at(now_ms),
    {
        now_ms > self.created_at_ms && now_ms - self.created_at_ms > secs_to_millis(self.ttl_seconds)
    }
}

/// A cached value and the wall-clock millisecond after which it is stale.
pub struct CacheSlot<V> {
    pub value: V,
    pub expires_at_ms: u64,
}

pub open spec fn slot_expired<V>(s: CacheSlot<V>, now_ms: u64) -> bool {
    now_ms > s.expires_at_ms
}

/// The slots of `t` still valid at `now_ms`.
pub open spec fn fresh_part<V>(t: Map<Seq<char>, CacheSlot<V>>, now_ms: u64) -> Map<
    Seq<char>,
    CacheSlot<V>,
> {
    Map::new(|k: Seq<char>| t.contains_key(k) && !slot_expired(t[k], now_ms), |k: Seq<char>| t[k])
}

/// The slot for `value` stored at `now_ms`: it expires `ttl_ms`, or the
/// default, milliseconds later.
pub open spec fn stored_slot<V>(value: V, now_ms: u64, ttl_ms: Option<u64>, default_ttl_ms: u64) -> CacheSlot<V> {
    CacheSlot {
        value,
        expires_at_ms: saturating_sum(
            now_ms,
            match ttl_ms {
                Some(t) => t,
                None => default_ttl_ms,
            },
        ),
    }
}

/// A string-keyed cache whose values expire, with hit and miss counts
/// (which stop growing at `u64::MAX`).
pub struct GenericCache<K, V> {
    slots: StrMap<CacheSlot<V>>,
    default_ttl_ms: u64,
    hits: u64,
    misses: u64,
    key_type: PhantomData<K>,
}

pub open spec fn bumped(n: u64) -> u64 {
    if n == u64::MAX {
        n
    } else {
        (n + 1) as u64
    }
}

fn bump(n: u64) -> (r: u64)
    ensures
        r == bumped(n),
{
    if n == u64::MAX {
        n
    } else {
        n + 1
    }
}

impl<V: Clone> GenericCache<String, V> {
    pub closed spec fn view(&self) -> Map<Seq<char>, CacheSlot<V>> {
        self.slots.view()
    }

    pub closed spec fn wf(&self) -> bool {
        self.slots.wf()
    }

    pub closed spec fn default_ttl(&self) -> u64 {
        self.default_ttl_ms
    }

    pub closed spec fn hit_count(&self) -> u64 {
        self.hits
    }

    pub closed spec fn miss_count(&self) -> u64 {
        self.misses
    }

    /// `after` and `r` are what a lookup of `key` at time `now_ms` leaves and
    /// returns. An expired entry is dropped and counts as a miss, like an
    /// absent one; a valid one counts as a hit and a clone of its value is
    /// returned.
    pub open spec fn lookup_outcome(&self, after: &Self, key: Seq<char>, now_ms: u64, r: Option<V>) -> bool {
        &&& after.default_ttl() == self.default_ttl()
        &&& !self.view().contains_key(key) ==> r is None && after.view() == self.view()
            && after.miss_count() == bumped(self.miss_count()) && after.hit_count() == self.hit_count()
        &&& self.view().contains_key(key) && slot_expired(self.view()[key], now_ms) ==> r is None
            && after.view() == self.view().remove(key) && after.miss_count() == bumped(
            self.miss_count(),
        ) && after.hit_count() == self.hit_count()
        &&& self.view().contains_key(key) && !slot_expired(self.view()[key], now_ms) ==> r is Some
            && cloned(self.view()[key].value, r->0) && after.view() == self.view() && after.hit_count()
            == bumped(self.hit_count()) && after.miss_count() == self.miss_count()
    }

    /// An empty cache whose entries live `default_ttl_secs` unless told
    /// otherwise.
    pub fn new(default_ttl_secs: u64) -> (r: Self)
        ensures
            r.wf(),
            r.view() == Map::<Seq<char>, CacheSlot<V>>::empty(),
            r.default_ttl() == millis_of_secs(default_ttl_secs),
            r.hit_count() == 0,
            r.miss_count() == 0,
    {
        GenericCache {
            slots: StrMap::new(),
            default_ttl_ms: secs_to_millis(default_ttl_secs),
            hits: 0,
            misses: 0,
            key_type: PhantomData,
        }
    }

    /// The value under `key`, if present and not expired, now.
    pub fn get(&mut self, key: &String) -> (r: Option<V>)
        requires
            old(self).wf(),
        ensures
            final(self).wf(),
            exists|now_ms: u64| old(self).lookup_outcome(&*final(self), key@, now_ms, r),
    {
        self.get_at(key, now_millis())
    }

    /// The value under `key` at time `now_ms`. An expired entry is dropped
    /// and counts as a miss, like an absent one; a valid one counts as a hit
    /// and a clone of its value is returned.
    pub fn get_at(&mut self, key: &String, now_ms: u64) -> (r: Option<V>)
        requires
            old(self).wf(),
        ensures
            final(self).wf(),
            old(self).lookup_outcome(&*final(self), key@, now_ms, r),
    {
        let found = match self.slots.get(key) {
            Some(slot) => {
                if now_ms > slot.expires_at_ms {
                    None
                } else {
                    Some(Some(slot.value.clone()))
                }
            },
            None => Some(None),
        };
        match found {
            None => {
                let _ = self.slots.remove(key);
                self.misses = bump(self.misses);
                None
            },
            Some(None) => {
                self.misses = bump(self.misses);
                None
            },
            Some(Some(v)) => {
                self.hits = bump(self.hits);
                Some(v)
            },
        }
    }

    /// Stores `value` under `key` from now on, for `ttl_ms` milliseconds or
    /// the default time to live.
    pub fn set(&mut self, key: String, value: V, ttl_ms: Option<u64>)
        requires
            old(self).wf(),
        ensures
            final(self).wf(),
            final(self).default_ttl() == old(self).default_ttl(),
            final(self).hit_count() == old(self).hit_count(),
            final(self).miss_count() == old(self).miss_count(),
            exists|now_ms: u64|
                final(self).view() == old(self).view().insert(
                    key@,
                    stored_slot(value, now_ms, ttl_ms, old(self).default_ttl()),
                ),
    {
        self.set_at(key, value, ttl_ms, now_millis());
    }

    /// Stores `value` under `key` at time `now_ms`: it expires `ttl_ms` (or
    /// the default) milliseconds later.
    pub fn set_at(&mut self, key: String, value: V, ttl_ms: Option<u64>, now_ms: u64)
        requires
            old(self).wf(),
        ensures
            final(self).wf(),
            final(self).default_ttl() == old(self).default_ttl(),
            final(self).hit_count() == old(self).hit_count(),
            final(self).miss_count() == old(self).miss_count(),
            final(self).view() == old(self).view().insert(
                key@,
                stored_slot(value, now_ms, ttl_ms, old(self).default_ttl()),
            ),
    {
        let ttl = match ttl_ms {
            Some(t) => t,
            None => self.default_ttl_ms,
        };
        let expires_at_ms = add_saturating(now_ms, ttl);
        self.slots.insert(key, CacheSlot { value, expires_at_ms });
    }

    /// Drops the entry under `key`.
    pub fn invalidate(&mut self, key: &String)
        requires
            old(self).wf(),
        ensures
            final(self).wf(),
            final(self).view() == old(self).view().remove(key@),
            final(self).default_ttl() == old(self).default_ttl(),
            final(self).hit_count() == old(self).hit_count(),
            final(self).miss_count() == old(self).miss_count(),
    {
        let _ = self.slots.remove(key);
    }

    /// Drops every entry.
    pub fn clear(&mut self)
        ensures
            final(self).wf(),
            final(self).view() == Map::<Seq<char>, CacheSlot<V>>::empty(),
            final(self).default_ttl() == old(self).default_ttl(),
            final(self).hit_count() == old(self).hit_count(),
            final(self).miss_count() == old(self).miss_count(),
    {
        self.slots.clear();
    }

    /// Drops the entries expired now.
    pub fn cleanup(&mut self)
        requires
            old(self).wf(),
        ensures
            final(self).wf(),
            exists|now_ms: u64| final(self).view() == fresh_part(old(self).view(), now_ms),
    {
        let now = now_millis();
        self.cleanup_at(now);
    }

    /// Drops the entries expired at `now_ms`.
    pub fn cleanup_at(&mut self, now_ms: u64)
        requires
            old(self).wf(),
        ensures
            final(self).wf(),
            final(self).view() == fresh_part(old(self).view(), now_ms),
            final(self).default_ttl() == old(self).default_ttl(),
            final(self).hit_count() == old(self).hit_count(),
            final(self).miss_count() == old(self).miss_count(),
    {
        let mut slots: StrMap<CacheSlot<V>> = StrMap::new();
        std::mem::swap(&mut slots, &mut self.slots);
        let mut rest = slots.into_entries();
        let ghost all = rest@;
        let ghost mut done: int = 0;
        let mut kept: StrMap<CacheSlot<V>> = StrMap::new();
        proof {
            assert(table_of(all.subrange(0, 0)) =~= Map::<Seq<char>, CacheSlot<V>>::empty());
            assert(fresh_part(table_of(all.subrange(0, 0)), now_ms) =~= Map::<
                Seq<char>,
                CacheSlot<V>,
            >::empty());
        }
        while rest.len() > 0
            invariant
                keys_unique(all),
                0 <= done <= all.len(),
                rest@ == all.subrange(done, all.len() as int),
                kept.wf(),
                kept.view() == fresh_part(table_of(all.subrange(0, done)), now_ms),
            decreases rest@.len(),
        {
            let e = rest.remove(0);
            proof {
                assert(e == all[done]);
                let pre = all.subrange(0, done);
                assert(all.subrange(0, done + 1) =~= pre.push(e));
                assert(keys_unique(pre));
                assert(!crate::keyed::has_key(pre, e.0@)) by {
                    if crate::keyed::has_key(pre, e.0@) {
                        let i = choose|i: int| 0 <= i < pre.len() && #[trigger] pre[i].0@ == e.0@;
                        assert(all[i].0@ == all[done].0@);
                    }
                }
                lemma_table_push(pre, e);
            }
            let ghost pre_table = table_of(all.subrange(0, done));
            let fresh = !(now_ms > e.1.expires_at_ms);
            if fresh {
                kept.insert(e.0, e.1);
            }
            proof {
                let t1 = table_of(all.subrange(0, done + 1));
                assert(t1 == pre_table.insert(e.0@, e.1));
                if fresh {
                    assert(fresh_part(t1, now_ms) =~= fresh_part(pre_table, now_ms).insert(e.0@, e.1));
                } else {
                    assert(fresh_part(t1, now_ms) =~= fresh_part(pre_table, now_ms));
                }
                done = done + 1;
                assert(rest@ =~= all.subrange(done, all.len() as int));
            }
        }
        proof {
            assert(all.subrange(0, done) =~= all);
        }
        self.slots = kept;
    }

    /// Lookups that found a valid entry.
    pub fn hits(&self) -> (r: u64)
        ensures
            r == self.hit_count(),
    {
        self.hits
    }

    /// Lookups that found nothing valid.
    pub fn misses(&self) -> (r: u64)
        ensures
            r == self.miss_count(),
    {
        self.misses
    }
}

} // verus!
