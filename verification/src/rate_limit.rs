//! The per-identity rate limiter: one grant per key per 24-hour window.
//!
//! A record maps a rate-limit key to the time of its most recent grant. A key
//! is blocked while less than 24 hours have passed since that time; a grant
//! outside the window overwrites the record in place. The sweep reclaims
//! records whose window has fully elapsed; since an absent record and a
//! record old enough to retry behave identically, eviction timing never
//! changes acceptance outcomes.

use vstd::prelude::*;

verus! {

use dashmap::DashMap;

/// The minimum interval between two grants for one key: 24 hours, in
/// milliseconds.
pub const RATE_LIMIT_WINDOW_MILLIS: i64 = 86_400_000;

/// What the rate-limit map holds: the last grant time by key.
pub uninterp spec fn rate_entries(m: DashMap<String, i64>) -> Map<Seq<char>, i64>;

/// Relies on dashmap::DashMap::new: a freshly created map has no entries.
#[verifier::external_body]
fn new_rate_map() -> (m: DashMap<String, i64>)
    ensures
        forall|k: Seq<char>| !rate_entries(m).dom().contains(k),
{
    DashMap::new()
}

/// Relies on dashmap::DashMap::get: returns the value stored under the key,
/// if any.
#[verifier::external_body]
fn rate_get(m: &DashMap<String, i64>, key: &str) -> (r: Option<i64>)
    ensures
        rate_entries(*m).dom().contains(key@) ==> r == Some(rate_entries(*m)[key@]),
        !rate_entries(*m).dom().contains(key@) ==> r is None,
{
    m.get(key).map(|entry| *entry)
}

/// Relies on dashmap::DashMap::insert: stores the value under the key,
/// replacing any previous entry for it.
#[verifier::external_body]
fn rate_insert(m: &mut DashMap<String, i64>, key: String, value: i64)
    ensures
        rate_entries(*final(m)) == rate_entries(*old(m)).insert(key@, value),
{
    m.insert(key, value);
}

/// Relies on dashmap::DashMap::retain: keeps exactly the entries on which the
/// predicate returns true, with their values unchanged.
#[verifier::external_body]
fn rate_retain_recent(m: &mut DashMap<String, i64>, now: i64)
    ensures
        forall|k: Seq<char>|
            rate_entries(*final(m)).dom().contains(k) <==> (rate_entries(*old(m)).dom().contains(k)
                && spec_rate_live(rate_entries(*old(m))[k], now)),
        forall|k: Seq<char>|
            rate_entries(*final(m)).dom().contains(k) ==> rate_entries(*final(m))[k] == rate_entries(
                *old(m),
            )[k],
{
    m.retain(|_, last| rate_is_live(*last, now));
}

/// A record is still within its window at `now`: less than 24 hours have
/// passed since its grant.
pub open spec fn spec_rate_live(last: i64, now: i64) -> bool {
    now - last < RATE_LIMIT_WINDOW_MILLIS
}

fn rate_is_live(last: i64, now: i64) -> (r: bool)
    ensures
        r == spec_rate_live(last, now),
{
    (now as i128) - (last as i128) < (RATE_LIMIT_WINDOW_MILLIS as i128)
}

/// Whether an acquisition on `key` at `now` is granted: the key is absent, or
/// its last grant lies a full window or more in the past.
pub open spec fn acquire_grants(m: Map<Seq<char>, i64>, key: Seq<char>, now: i64) -> bool {
    !m.dom().contains(key) || now - m[key] >= RATE_LIMIT_WINDOW_MILLIS
}

/// The map after an acquisition: a grant records its time under the key, a
/// denial leaves the map untouched.
pub open spec fn acquire_result_map(m: Map<Seq<char>, i64>, key: Seq<char>, now: i64) -> Map<
    Seq<char>,
    i64,
> {
    if acquire_grants(m, key, now) {
        m.insert(key, now)
    } else {
        m
    }
}

/// The map after a sweep at `now`: exactly the records still within their
/// window, unchanged.
pub open spec fn rate_after_sweep(m: Map<Seq<char>, i64>, now: i64) -> Map<Seq<char>, i64> {
    Map::new(|k: Seq<char>| m.dom().contains(k) && spec_rate_live(m[k], now), |k: Seq<char>| m[k])
}

/// The store of last grant times, keyed by recipient identity plus client
/// hint.
pub struct RateLimiter {
    requests: DashMap<String, i64>,
}

impl View for RateLimiter {
    type V = Map<Seq<char>, i64>;

    closed spec fn view(&self) -> Map<Seq<char>, i64> {
        rate_entries(self.requests)
    }
}

impl RateLimiter {
    /// An empty limiter; all gating state rebuilds from zero on restart.
    pub fn new() -> (s: Self)
        ensures
            s@ == Map::<Seq<char>, i64>::empty(),
    {
        let s = RateLimiter { requests: new_rate_map() };
        proof {
            assert(s@ =~= Map::<Seq<char>, i64>::empty());
        }
        s
    }

    /// The single check-and-update of the limiter: grants iff the key is
    /// absent or out of its window, and then records `now` as the key's last
    /// grant time; a denial changes nothing.
    pub fn check_and_update(&mut self, key: &str, now: i64) -> (granted: bool)
        ensures
            granted == acquire_grants(old(self)@, key@, now),
            final(self)@ == acquire_result_map(old(self)@, key@, now),
    {
        match rate_get(&self.requests, key) {
            Some(last) => {
                if rate_is_live(last, now) {
                    false
                } else {
                    rate_insert(&mut self.requests, key.to_owned(), now);
                    true
                }
            },
            None => {
                rate_insert(&mut self.requests, key.to_owned(), now);
                true
            },
        }
    }

    /// Removes every record whose window has fully elapsed and nothing else.
    /// Idempotent.
    pub fn cleanup_expired(&mut self, now: i64)
        ensures
            final(self)@ == rate_after_sweep(old(self)@, now),
    {
        rate_retain_recent(&mut self.requests, now);
        proof {
            assert(rate_entries(self.requests) =~= rate_after_sweep(old(self)@, now));
        }
    }
}

/// Two acquisitions on one key within 24 hours of each other never both
/// grant, whatever the key's prior state.
pub proof fn lemma_at_most_one_grant(m: Map<Seq<char>, i64>, key: Seq<char>, now1: i64, now2: i64)
    requires
        now1 <= now2,
        now2 - now1 < RATE_LIMIT_WINDOW_MILLIS,
    ensures
        !(acquire_grants(m, key, now1) && acquire_grants(
            acquire_result_map(m, key, now1),
            key,
            now2,
        )),
{
}

/// When the first of two acquisitions within 24 hours of each other finds the
/// key absent or out of its window, exactly one of the two grants: the first.
pub proof fn lemma_exactly_one_grant(m: Map<Seq<char>, i64>, key: Seq<char>, now1: i64, now2: i64)
    requires
        acquire_grants(m, key, now1),
        now1 <= now2,
        now2 - now1 < RATE_LIMIT_WINDOW_MILLIS,
    ensures
        acquire_grants(m, key, now1),
        !acquire_grants(acquire_result_map(m, key, now1), key, now2),
{
}

/// An acquisition a full window or more after the last grant is granted
/// again.
pub proof fn lemma_window_elapses(m: Map<Seq<char>, i64>, key: Seq<char>, granted_at: i64, now: i64)
    requires
        now - granted_at >= RATE_LIMIT_WINDOW_MILLIS,
    ensures
        acquire_grants(m.insert(key, granted_at), key, now),
{
}

/// Eviction is pure memory reclamation: an absent record and a record old
/// enough to retry are equivalent states, so a sweep never changes the
/// outcome of any acquisition at or after the sweep time.
pub proof fn lemma_sweep_preserves_acceptance(
    m: Map<Seq<char>, i64>,
    sweep_time: i64,
    key: Seq<char>,
    now: i64,
)
    requires
        sweep_time <= now,
    ensures
        acquire_grants(rate_after_sweep(m, sweep_time), key, now) == acquire_grants(m, key, now),
{
}

/// A sweep never removes a record still within its window and always removes
/// one whose window has elapsed, and it leaves kept values unchanged.
pub proof fn lemma_rate_sweep_exact(m: Map<Seq<char>, i64>, now: i64, k: Seq<char>)
    requires
        m.dom().contains(k),
    ensures
        spec_rate_live(m[k], now) ==> rate_after_sweep(m, now).dom().contains(k) && rate_after_sweep(
            m,
            now,
        )[k] == m[k],
        !spec_rate_live(m[k], now) ==> !rate_after_sweep(m, now).dom().contains(k),
{
}

} // verus!
