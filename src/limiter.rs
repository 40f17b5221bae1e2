//! Per-(subject, actor) rate limiting on top of the ephemeral cache: at most one
//! accepted report per pair in each window of `RATE_LIMIT_TTL` seconds.
use vstd::prelude::*;
use vstd::string::*;
use crate::mem::{get, live_value, MemCache, RATE_LIMIT_TTL};

verus! {

/// Outcome of a rate check.
#[derive(Debug, Clone, Copy, PartialEq, Eq, Structural)]
pub enum RateDecision {
    Allowed,
    RateLimited,
}

/// Cache key of the counter for reports by `actor` against `subject`.
pub open spec fn rate_key_spec(subject: Seq<char>, actor: Seq<char>) -> Seq<char> {
    "signaly_"@ + subject + "_"@ + actor
}

/// Whether the pair is currently throttled: its counter is alive and at least 1.
pub open spec fn is_rate_limited(
    m: Map<Seq<char>, (u16, u64)>,
    subject: Seq<char>,
    actor: Seq<char>,
    now: u64,
) -> bool {
    match live_value(m, rate_key_spec(subject, actor), now) {
        Some(v) => v >= 1,
        None => false,
    }
}

/// The cache after the pair's counter was set to 1 at instant `now`.
pub open spec fn reserved(
    m: Map<Seq<char>, (u16, u64)>,
    subject: Seq<char>,
    actor: Seq<char>,
    now: u64,
) -> Map<Seq<char>, (u16, u64)> {
    m.insert(rate_key_spec(subject, actor), (1u16, (now + RATE_LIMIT_TTL) as u64))
}

/// Builds the cache key of the pair.
pub fn rate_key(subject: &String, actor: &String) -> (r: String)
    ensures
        r@ == rate_key_spec(subject@, actor@),
{
    let mut key = String::from_str("signaly_");
    key.append(subject.as_str());
    key.append("_");
    key.append(actor.as_str());
    key
}

/// Checks whether `actor` may report `subject` at instant `now`.
pub fn check_rate(cache: &MemCache, subject: &String, actor: &String, now: u64) -> (r:
    RateDecision)
    requires
        cache.wf(),
    ensures
        r == RateDecision::RateLimited <==> is_rate_limited(cache@, subject@, actor@, now),
{
    let key = rate_key(subject, actor);
    match get(cache, &key, now) {
        Some(v) => {
            if v >= 1 {
                RateDecision::RateLimited
            } else {
                RateDecision::Allowed
            }
        },
        None => RateDecision::Allowed,
    }
}

/// Records an accepted report by `actor` against `subject` at instant `now`.
pub fn reserve(cache: &mut MemCache, subject: &String, actor: &String, now: u64)
    requires
        old(cache).wf(),
        now + RATE_LIMIT_TTL <= u64::MAX,
    ensures
        final(cache).wf(),
        final(cache)@ == reserved(old(cache)@, subject@, actor@, now),
{
    let key = rate_key(subject, actor);
    crate::mem::set(cache, key, 1, now);
}

/// After a report by `actor` against `subject` is accepted at `t0`, further
/// reports by the same pair are throttled before `t0 + RATE_LIMIT_TTL` and
/// allowed again from then on, whatever the cache held before.
pub proof fn lemma_rate_window(
    m: Map<Seq<char>, (u16, u64)>,
    subject: Seq<char>,
    actor: Seq<char>,
    t0: u64,
    t: u64,
)
    requires
        t0 + RATE_LIMIT_TTL <= u64::MAX,
    ensures
        t < t0 + RATE_LIMIT_TTL ==> is_rate_limited(reserved(m, subject, actor, t0), subject, actor, t),
        t >= t0 + RATE_LIMIT_TTL ==> !is_rate_limited(
            reserved(m, subject, actor, t0),
            subject,
            actor,
            t,
        ),
{
}

} // verus!
