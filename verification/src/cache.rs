//! The balance cache: when a stored balance may be served, and what is stored and shown
//! after a fetch succeeds or fails. A failed fetch is recorded too, so that retries are
//! throttled for one TTL while the last known balance keeps being shown.
//!
//! The balance itself is carried as an opaque value `B`: no decision here depends on it.
use vstd::prelude::*;

verus! {

/// A cached balance is fresh while `now_ms` has not moved past `stored_at_ms + ttl_ms`.
/// A clock that went backwards (`now_ms < stored_at_ms`) counts as no time elapsed.
pub open spec fn is_fresh(stored_at_ms: u64, now_ms: u64, ttl_ms: u64) -> bool {
    now_ms <= stored_at_ms + ttl_ms
}

/// Whether a cache entry stamped at `fetched_at_ms` may still be used at `now_ms`; the
/// window is closed, so an entry exactly `ttl_ms` old is still fresh.
pub fn cache_fresh(fetched_at_ms: u64, now_ms: u64, ttl_ms: u64) -> (fresh: bool)
    ensures
        fresh == is_fresh(fetched_at_ms, now_ms, ttl_ms),
{
    now_ms.saturating_sub(fetched_at_ms) <= ttl_ms
}

/// What is kept between runs: when the balance was last fetched, the balance (if one was
/// ever obtained), and when the last fetch failed (if the last fetch failed).
#[derive(Clone, Debug)]
pub struct BalanceCache<B> {
    pub fetched_at_ms: u64,
    pub balance_cny: Option<B>,
    pub failed_at_ms: Option<u64>,
}

impl<B> BalanceCache<B> {
    /// The moment freshness is measured from: the last failure when one is recorded,
    /// otherwise the last fetch.
    pub open spec fn throttle_from(self) -> u64 {
        match self.failed_at_ms {
            Some(failed_at) => failed_at,
            None => self.fetched_at_ms,
        }
    }

    /// The moment freshness is measured from (see `throttle_from`).
    pub fn throttle_from_ms(&self) -> (at_ms: u64)
        ensures
            at_ms == self.throttle_from(),
    {
        match self.failed_at_ms {
            Some(failed_at) => failed_at,
            None => self.fetched_at_ms,
        }
    }
}

/// The answer of a cache lookup.
#[derive(Debug)]
pub enum CacheLookup<B> {
    /// The entry is fresh: show this balance (possibly none) and do not fetch.
    Fresh(Option<B>),
    /// No fresh entry: fetch, keeping the expired entry (if any) for its stale balance.
    Expired(Option<BalanceCache<B>>),
}

/// The lookup answer for `cached` at `now_ms` with a TTL of `ttl_ms`.
pub open spec fn lookup_outcome<B>(cached: Option<BalanceCache<B>>, now_ms: u64, ttl_ms: u64) -> CacheLookup<B> {
    match cached {
        Some(entry) => if is_fresh(entry.throttle_from(), now_ms, ttl_ms) {
            CacheLookup::Fresh(entry.balance_cny)
        } else {
            CacheLookup::Expired(Some(entry))
        },
        None => CacheLookup::Expired(None),
    }
}

/// Decides whether the stored entry answers the request: a fresh entry is served as it is,
/// anything else calls for a fetch.
pub fn lookup_cache<B>(cached: Option<BalanceCache<B>>, now_ms: u64, ttl_ms: u64) -> (found: CacheLookup<B>)
    ensures
        found == lookup_outcome(cached, now_ms, ttl_ms),
{
    match cached {
        Some(entry) => {
            if cache_fresh(entry.throttle_from_ms(), now_ms, ttl_ms) {
                CacheLookup::Fresh(entry.balance_cny)
            } else {
                CacheLookup::Expired(Some(entry))
            }
        },
        None => CacheLookup::Expired(None),
    }
}

/// What a fetch leaves behind: the entry to store and the balance to show.
#[derive(Debug)]
pub struct FetchRecord<B> {
    pub cache: BalanceCache<B>,
    pub shown: Option<B>,
}

/// The balance of an expired entry, if there is one.
pub open spec fn stale_balance<B>(previous: Option<BalanceCache<B>>) -> Option<B> {
    match previous {
        Some(entry) => entry.balance_cny,
        None => None,
    }
}

/// The record of a fetch made at `now_ms`: a success stores and shows the new balance; a
/// failure stores the stale balance with the failure time, and shows the stale balance.
pub open spec fn fetch_outcome<B, E>(previous: Option<BalanceCache<B>>, now_ms: u64, fetched: Result<B, E>) -> FetchRecord<B> {
    match fetched {
        Ok(balance) => FetchRecord {
            cache: BalanceCache { fetched_at_ms: now_ms, balance_cny: Some(balance), failed_at_ms: None },
            shown: Some(balance),
        },
        Err(_) => FetchRecord {
            cache: BalanceCache {
                fetched_at_ms: now_ms,
                balance_cny: stale_balance(previous),
                failed_at_ms: Some(now_ms),
            },
            shown: stale_balance(previous),
        },
    }
}

/// Records the result of a fetch made at `now_ms` after `previous` expired.
pub fn record_fetch<B: Copy, E>(previous: Option<BalanceCache<B>>, now_ms: u64, fetched: Result<B, E>) -> (record: FetchRecord<B>)
    ensures
        record == fetch_outcome(previous, now_ms, fetched),
        record.cache.fetched_at_ms == now_ms,
        fetched matches Ok(balance) ==> record.shown == Some(balance) && record.cache.balance_cny
            == Some(balance) && record.cache.failed_at_ms is None,
        fetched is Err ==> record.shown == stale_balance(previous) && record.cache.balance_cny
            == stale_balance(previous) && record.cache.failed_at_ms == Some(now_ms),
{
    match fetched {
        Ok(balance) => FetchRecord {
            cache: BalanceCache { fetched_at_ms: now_ms, balance_cny: Some(balance), failed_at_ms: None },
            shown: Some(balance),
        },
        Err(_) => {
            let stale = match previous {
                Some(entry) => entry.balance_cny,
                None => None,
            };
            FetchRecord {
                cache: BalanceCache { fetched_at_ms: now_ms, balance_cny: stale, failed_at_ms: Some(now_ms) },
                shown: stale,
            }
        },
    }
}

/// A failed fetch throttles retries: for one TTL after the failure, every lookup is
/// answered from the stored entry, and it shows the same (stale) balance that the failed
/// attempt showed.
pub proof fn lemma_failure_throttles_retries<B, E>(
    previous: Option<BalanceCache<B>>,
    failed_at_ms: u64,
    error: E,
    later_ms: u64,
    ttl_ms: u64,
)
    requires
        later_ms <= failed_at_ms + ttl_ms,
    ensures
        ({
            let record = fetch_outcome(previous, failed_at_ms, Err::<B, E>(error));
            &&& lookup_outcome(Some(record.cache), later_ms, ttl_ms) == CacheLookup::Fresh(
                stale_balance(previous),
            )
            &&& record.shown == stale_balance(previous)
        }),
{
}

/// A successful fetch shows the balance it fetched, whatever was cached before (nothing,
/// a fresh-looking entry, or a recorded failure), and stores it as a clean entry stamped
/// with the fetch time.
pub proof fn lemma_success_shows_fetched<B, E>(previous: Option<BalanceCache<B>>, now_ms: u64, balance: B)
    ensures
        ({
            let record = fetch_outcome(previous, now_ms, Ok::<B, E>(balance));
            &&& record.shown == Some(balance)
            &&& record.cache.balance_cny == Some(balance)
            &&& record.cache.fetched_at_ms == now_ms
            &&& record.cache.failed_at_ms is None
        }),
{
}

/// What a fetch shows is always what it stores: the next lookup within the TTL serves the
/// same balance.
pub proof fn lemma_shown_is_stored<B, E>(previous: Option<BalanceCache<B>>, now_ms: u64, fetched: Result<B, E>)
    ensures
        fetch_outcome(previous, now_ms, fetched).shown == fetch_outcome(previous, now_ms, fetched).cache.balance_cny,
{
}

/// A successful fetch is served from the cache for one TTL: every lookup until then shows
/// the fetched balance without fetching again.
pub proof fn lemma_success_is_cached<B, E>(
    previous: Option<BalanceCache<B>>,
    fetched_at_ms: u64,
    balance: B,
    later_ms: u64,
    ttl_ms: u64,
)
    requires
        later_ms <= fetched_at_ms + ttl_ms,
    ensures
        lookup_outcome(
            Some(fetch_outcome(previous, fetched_at_ms, Ok::<B, E>(balance)).cache),
            later_ms,
            ttl_ms,
        ) == CacheLookup::Fresh(Some(balance)),
{
}

/// Once the TTL after a fetch (successful or not) has passed, the next lookup asks for a
/// new fetch and hands back the stored entry.
pub proof fn lemma_retry_after_ttl<B, E>(
    previous: Option<BalanceCache<B>>,
    fetched_at_ms: u64,
    fetched: Result<B, E>,
    later_ms: u64,
    ttl_ms: u64,
)
    requires
        later_ms > fetched_at_ms + ttl_ms,
    ensures
        ({
            let stored = fetch_outcome(previous, fetched_at_ms, fetched).cache;
            lookup_outcome(Some(stored), later_ms, ttl_ms) == CacheLookup::Expired(Some(stored))
        }),
{
}

/// A stale balance is never lost by failures: after any number of failed fetches, the
/// entry still holds (and shows) the balance of the entry the first failure started from.
pub proof fn lemma_failures_keep_stale_balance<B, E>(
    previous: Option<BalanceCache<B>>,
    first_ms: u64,
    second_ms: u64,
    first_error: E,
    second_error: E,
)
    ensures
        ({
            let first = fetch_outcome(previous, first_ms, Err::<B, E>(first_error));
            let second = fetch_outcome(Some(first.cache), second_ms, Err::<B, E>(second_error));
            &&& second.shown == stale_balance(previous)
            &&& second.cache.balance_cny == stale_balance(previous)
        }),
{
}

} // verus!
