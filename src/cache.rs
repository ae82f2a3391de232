use std::collections::HashMap;

use vstd::prelude::*;

verus! {

broadcast use vstd::std_specs::hash::group_hash_axioms;

/// A grid cell of the forecast cache: latitude and longitude in hundredths
/// of a degree.
#[derive(Debug, Clone, Copy, PartialEq, Eq, Structural)]
pub struct CacheIndex(pub i16, pub i16);

impl CacheIndex {
    /// The map key of the cell; distinct cells have distinct keys.
    pub open spec fn key_of(self) -> i64 {
        (self.0 * 65536 + self.1) as i64
    }

    pub fn key(&self) -> (r: i64)
        ensures
            r == self.key_of(),
    {
        self.0 as i64 * 65536 + self.1 as i64
    }
}

/// Distinct cells have distinct keys.
pub proof fn lemma_key_injective(a: CacheIndex, b: CacheIndex)
    ensures
        a.key_of() == b.key_of() ==> a == b,
{
    let (a0, a1, b0, b1) = (a.0 as int, a.1 as int, b.0 as int, b.1 as int);
    if a.key_of() == b.key_of() {
        assert((a0 - b0) * 65536 == b1 - a1) by (nonlinear_arith)
            requires
                a0 * 65536 + a1 == b0 * 65536 + b1,
        ;
        if a0 != b0 {
            assert(a0 - b0 >= 1 || a0 - b0 <= -1);
            assert((a0 - b0) * 65536 >= 65536 || (a0 - b0) * 65536 <= -65536) by (nonlinear_arith)
                requires
                    a0 - b0 >= 1 || a0 - b0 <= -1,
            ;
        }
    }
}

/// A cached forecast and when, in milliseconds since the epoch, it was
/// stored.
#[derive(Debug, Clone)]
pub struct CacheEntry<F> {
    pub timestamp: i64,
    pub forecast: F,
}

impl<F> CacheEntry<F> {
    /// An entry stored at `now`.
    pub fn new(forecast: F, now: i64) -> (r: CacheEntry<F>)
        ensures
            r == (CacheEntry { timestamp: now, forecast }),
    {
        CacheEntry { timestamp: now, forecast }
    }
}

/// Whether an entry stored at `timestamp` is still valid at `now`, for a
/// time to live of `ttl` milliseconds.
pub open spec fn is_fresh(timestamp: i64, now: i64, ttl: i64) -> bool {
    now - timestamp < ttl
}

/// The entries of `m` that are still valid at `now`.
pub open spec fn fresh_only<F>(m: Map<i64, CacheEntry<F>>, now: i64, ttl: i64) -> Map<
    i64,
    CacheEntry<F>,
> {
    Map::new(|k: i64| m.contains_key(k) && is_fresh(m[k].timestamp, now, ttl), |k: i64| m[k])
}

/// The entries `m` after a cleanup at `now` where they number `limit` or
/// more; `m` itself otherwise.
pub open spec fn cleaned_if_full<F>(m: Map<i64, CacheEntry<F>>, now: i64, ttl: i64, limit: usize) -> Map<
    i64,
    CacheEntry<F>,
> {
    if m.len() >= limit {
        fresh_only(m, now, ttl)
    } else {
        m
    }
}

/// What a lookup of `at` at time `now` does to the entries `m`, held for
/// `ttl` milliseconds, when it gives `r` and leaves `m2`: a valid entry gives
/// a clone of its forecast and stays, an expired one is removed and gives
/// nothing, and a missing one gives nothing.
pub open spec fn looked_up<F: Clone>(
    m: Map<i64, CacheEntry<F>>,
    ttl: i64,
    at: CacheIndex,
    now: i64,
    m2: Map<i64, CacheEntry<F>>,
    r: Option<F>,
) -> bool {
    let k = at.key_of();
    if m.contains_key(k) && is_fresh(m[k].timestamp, now, ttl) {
        r is Some && cloned(m[k].forecast, r->Some_0) && m2 == m
    } else if m.contains_key(k) {
        r is None && m2 == m.remove(k)
    } else {
        r is None && m2 == m
    }
}

/// Relies on `chrono::Utc::now`: the current time in milliseconds since the
/// epoch, of which nothing is promised.
#[verifier::external_body]
fn now_millis() -> i64 {
    chrono::Utc::now().timestamp_millis()
}

/// Relies on `HashMap::shrink_to`, which changes the capacity and never the
/// contents.
#[verifier::external_body]
fn shrink_map<V>(m: &mut HashMap<i64, V>, min_capacity: usize)
    ensures
        final(m)@ == old(m)@,
{
    m.shrink_to(min_capacity)
}

/// An expiring map from grid cells to forecasts. It cleans out expired
/// entries whenever it holds `soft_cache_limit` entries or more.
#[derive(Debug)]
#[verifier::reject_recursive_types(F)]
pub struct Cache<F> {
    cache: HashMap<i64, CacheEntry<F>>,
    ttl: i64,
    soft_cache_limit: usize,
}

impl<F> View for Cache<F> {
    type V = Map<i64, CacheEntry<F>>;

    closed spec fn view(&self) -> Map<i64, CacheEntry<F>> {
        self.cache@
    }
}

impl<F> Cache<F> {
    /// The time to live of an entry, in milliseconds.
    pub closed spec fn ttl(self) -> i64 {
        self.ttl
    }

    /// The number of entries at which the cache cleans itself.
    pub closed spec fn limit(self) -> usize {
        self.soft_cache_limit
    }

    /// An empty cache.
    pub fn new(ttl: i64, soft_cache_limit: usize) -> (r: Cache<F>)
        ensures
            r@ == Map::<i64, CacheEntry<F>>::empty(),
            r.ttl() == ttl,
            r.limit() == soft_cache_limit,
    {
        Cache { cache: HashMap::with_capacity(soft_cache_limit), ttl, soft_cache_limit }
    }

    /// The number of entries held.
    pub fn len(&self) -> (r: usize)
        ensures
            r == self@.len(),
    {
        self.cache.len()
    }

    /// Whether an entry stored at `timestamp` is still valid at `now`.
    pub fn is_timestamp_valid(&self, timestamp: i64, now: i64) -> (r: bool)
        ensures
            r == is_fresh(timestamp, now, self.ttl()),
    {
        (now as i128) - (timestamp as i128) < self.ttl as i128
    }
}

impl<F> Cache<F> {
    /// Removes every entry that has expired at `now` and gives how many
    /// were removed.
    pub fn cleanup_at(&mut self, now: i64) -> (r: usize)
        ensures
            final(self).ttl() == old(self).ttl(),
            final(self).limit() == old(self).limit(),
            final(self)@ == fresh_only(old(self)@, now, old(self).ttl()),
            r == old(self)@.len() - final(self)@.len(),
    {
        let ghost start = self.cache@;
        let total = self.cache.len();
        let mut expired: Vec<i64> = Vec::new();
        for item in it: self.cache.iter()
            invariant
                self.cache@ == start,
                forall|i: int|
                    0 <= i < expired.len() ==> #[trigger] start.contains_key(expired[i])
                        && !is_fresh(start[expired[i]].timestamp, now, self.ttl),
                forall|j: int|
                    0 <= j < it.index() && !is_fresh((*it.seq()[j].1).timestamp, now, self.ttl)
                        ==> expired@.contains(*(#[trigger] it.seq()[j]).0),
        {
            let (k, entry) = item;
            let ghost before = expired@;
            assert(item == it.seq()[it.index() as int]);
            if !self.is_timestamp_valid(entry.timestamp, now) {
                expired.push(*k);
                assert(expired@[expired.len() - 1] == *k);
            }
            assert forall|x: i64| before.contains(x) implies expired@.contains(x) by {
                let i = choose|i: int| 0 <= i < before.len() && before[i] == x;
                assert(expired@[i] == x);
            }
        }
        let mut count: usize = 0;
        let mut i: usize = 0;
        while i < expired.len()
            invariant
                i <= expired.len(),
                self.ttl == old(self).ttl,
                self.soft_cache_limit == old(self).soft_cache_limit,
                start == old(self).cache@,
                total == start.len(),
                self.cache@.dom().finite(),
                forall|j: int|
                    0 <= j < expired.len() ==> #[trigger] start.contains_key(expired[j])
                        && !is_fresh(start[expired[j]].timestamp, now, self.ttl),
                forall|k: i64|
                    start.contains_key(k) && !is_fresh(start[k].timestamp, now, self.ttl)
                        ==> expired@.contains(k),
                forall|k: i64| #[trigger]
                    self.cache@.contains_key(k) ==> start.contains_key(k) && self.cache@[k]
                        == start[k],
                forall|k: i64|
                    start.contains_key(k) && !(#[trigger] self.cache@.contains_key(k)) ==> !is_fresh(
                        start[k].timestamp,
                        now,
                        self.ttl,
                    ),
                forall|j: int| 0 <= j < i ==> !self.cache@.contains_key(#[trigger] expired[j]),
                count + self.cache@.len() == total,
            decreases expired.len() - i,
        {
            let ghost before = self.cache@;
            let removed = self.cache.remove(&expired[i]);
            if removed.is_some() {
                proof {
                    before.lemma_remove_key_len(expired[i as int]);
                }
                count = count + 1;
            } else {
                assert(self.cache@ =~= before);
            }
            i = i + 1;
        }
        assert(self.cache@ =~= fresh_only(start, now, self.ttl)) by {
            assert forall|k: i64| #[trigger] start.contains_key(k) && !is_fresh(start[k].timestamp, now, self.ttl)
                implies !self.cache@.contains_key(k) by {
                let j = choose|j: int| 0 <= j < expired.len() && expired[j] == k;
                assert(!self.cache@.contains_key(expired[j]));
            }
        }
        count
    }

    /// Removes every expired entry, as `cleanup_at` does for the time the
    /// clock gives.
    pub fn cleanup(&mut self) -> (r: usize)
        ensures
            final(self).ttl() == old(self).ttl(),
            final(self).limit() == old(self).limit(),
            exists|now: i64| final(self)@ == #[trigger] fresh_only(old(self)@, now, old(self).ttl()),
            r == old(self)@.len() - final(self)@.len(),
    {
        let now = now_millis();
        self.cleanup_at(now)
    }

    /// Cleans the cache at `now` when it holds `soft_cache_limit` entries or
    /// more, and then gives how many were removed; otherwise leaves it as it
    /// is and gives `None`.
    pub fn check_cleanup_at(&mut self, now: i64) -> (r: Option<usize>)
        ensures
            final(self).ttl() == old(self).ttl(),
            final(self).limit() == old(self).limit(),
            final(self)@ == cleaned_if_full(old(self)@, now, old(self).ttl(), old(self).limit()),
            old(self)@.len() >= old(self).limit() ==> r == Some((old(self)@.len() - final(self)@.len()) as usize),
            old(self)@.len() < old(self).limit() ==> r is None,
    {
        if self.cache.len() >= self.soft_cache_limit {
            let cleaned = self.cleanup_at(now);
            shrink_map(&mut self.cache, self.soft_cache_limit);
            Some(cleaned)
        } else {
            None
        }
    }

    /// `check_cleanup_at` for the time the clock gives.
    pub fn check_cleanup(&mut self) -> (r: Option<usize>)
        ensures
            final(self).ttl() == old(self).ttl(),
            final(self).limit() == old(self).limit(),
            exists|now: i64| final(self)@ == #[trigger] cleaned_if_full(old(self)@, now, old(self).ttl(), old(self).limit()),
            old(self)@.len() >= old(self).limit() ==> r == Some((old(self)@.len() - final(self)@.len()) as usize),
            old(self)@.len() < old(self).limit() ==> r is None,
    {
        let now = now_millis();
        self.check_cleanup_at(now)
    }

    /// Stores `forecast` for `at` at time `now`, replacing what was there,
    /// then cleans the cache if it has reached its soft limit.
    pub fn cache_at(&mut self, at: CacheIndex, forecast: F, now: i64)
        ensures
            final(self).ttl() == old(self).ttl(),
            final(self).limit() == old(self).limit(),
            final(self)@ == cleaned_if_full(
                old(self)@.insert(at.key_of(), CacheEntry { timestamp: now, forecast }),
                now,
                old(self).ttl(),
                old(self).limit(),
            ),
    {
        let key = at.key();
        let _ = self.cache.insert(key, CacheEntry::new(forecast, now));
        let _ = self.check_cleanup_at(now);
    }

    /// Stores `forecast` for `at`, stamped with the time the clock gives;
    /// see `cache_at`.
    pub fn cache(&mut self, at: CacheIndex, forecast: F)
        ensures
            final(self).ttl() == old(self).ttl(),
            final(self).limit() == old(self).limit(),
            exists|now: i64| final(self)@ == #[trigger] cleaned_if_full(
                old(self)@.insert(at.key_of(), CacheEntry { timestamp: now, forecast }),
                now,
                old(self).ttl(),
                old(self).limit(),
            ),
    {
        let now = now_millis();
        self.cache_at(at, forecast, now)
    }
}

impl<F: Clone> Cache<F> {
    /// Looks up the forecast for `at` at time `now`: a valid entry gives a
    /// clone of its forecast, an expired one is removed and gives nothing.
    pub fn lookup_at(&mut self, at: CacheIndex, now: i64) -> (r: Option<F>)
        ensures
            final(self).ttl() == old(self).ttl(),
            final(self).limit() == old(self).limit(),
            looked_up(old(self)@, old(self).ttl(), at, now, final(self)@, r),
    {
        let key = at.key();
        if let Some(entry) = self.cache.get(&key) {
            if self.is_timestamp_valid(entry.timestamp, now) {
                return Some(entry.forecast.clone());
            } else {
                let _ = self.cache.remove(&key);
            }
        }
        None
    }

    /// Looks up the forecast for `at` at the current time, as `lookup_at`
    /// does for the time the clock gives.
    pub fn lookup(&mut self, at: CacheIndex) -> (r: Option<F>)
        ensures
            final(self).ttl() == old(self).ttl(),
            final(self).limit() == old(self).limit(),
            exists|now: i64| #[trigger] looked_up(old(self)@, old(self).ttl(), at, now, final(self)@, r),
    {
        let now = now_millis();
        self.lookup_at(at, now)
    }
}

/// A forecast just stored is found again at the same instant, whatever the
/// cleanup did, as long as entries live for some time.
pub proof fn lemma_stored_then_found<F: Clone>(
    m: Map<i64, CacheEntry<F>>,
    ttl: i64,
    limit: usize,
    at: CacheIndex,
    forecast: F,
    now: i64,
    after: Map<i64, CacheEntry<F>>,
    r: Option<F>,
)
    requires
        ttl > 0,
        looked_up(
            cleaned_if_full(m.insert(at.key_of(), CacheEntry { timestamp: now, forecast }), now, ttl, limit),
            ttl,
            at,
            now,
            after,
            r,
        ),
    ensures
        r is Some,
        cloned(forecast, r->Some_0),
{
    let stored = m.insert(at.key_of(), CacheEntry { timestamp: now, forecast });
    assert(stored.contains_key(at.key_of()));
    assert(is_fresh(now, now, ttl));
    if stored.len() >= limit {
        assert(fresh_only(stored, now, ttl).contains_key(at.key_of()));
    }
}

} // verus!
