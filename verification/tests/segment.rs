use deepseek_balance::cache::{cache_fresh, lookup_cache, record_fetch, BalanceCache, CacheLookup};
use deepseek_balance::segment::{
    balance_switch_on, cache_ttl_ms, is_deepseek_model, segment_api_key, select_api_key,
};

fn key(s: &str) -> Option<String> {
    Some(s.to_string())
}

#[test]
fn deepseek_model_detection() {
    assert!(is_deepseek_model("deepseek-chat"));
    assert!(is_deepseek_model("DeepSeek-Reasoner"));
    assert!(is_deepseek_model("openrouter/deepseek/deepseek-r1"));
    assert!(!is_deepseek_model("gpt-4o-mini"));
    assert!(!is_deepseek_model(""));
}

#[test]
fn cache_freshness_window() {
    let ttl_ms = 3600 * 1000;
    assert!(cache_fresh(1_000, 60_000, ttl_ms));
    assert!(!cache_fresh(1_000, 1_000 + ttl_ms + 1, ttl_ms));
    assert!(cache_fresh(1_000, 1_000 + ttl_ms, ttl_ms));
}

#[test]
fn segment_skipped_for_non_deepseek_model() {
    assert_eq!(
        segment_api_key(Some("true"), "gpt-4o-mini", key("anthropic-key"), key("deepseek-key")),
        None
    );
}

#[test]
fn segment_disabled_when_switch_off() {
    assert_eq!(
        segment_api_key(Some("false"), "deepseek-chat", key("anthropic-key"), key("deepseek-key")),
        None
    );
}

#[test]
fn segment_disabled_when_switch_missing() {
    assert_eq!(
        segment_api_key(Some(""), "deepseek-chat", key("anthropic-key"), key("deepseek-key")),
        None
    );
    assert_eq!(
        segment_api_key(None, "deepseek-chat", key("anthropic-key"), key("deepseek-key")),
        None
    );
}

#[test]
fn deepseek_detection_ignores_case() {
    assert!(is_deepseek_model("DEEPSEEK"));
    assert!(is_deepseek_model("my-DeepSeek"));
    assert!(!is_deepseek_model("deep-seek"));
    assert!(!is_deepseek_model("deepsee"));
}

#[test]
fn cache_fresh_when_clock_goes_back() {
    assert!(cache_fresh(10_000, 5_000, 0));
    assert!(cache_fresh(0, 0, 0));
    assert!(!cache_fresh(0, 1, 0));
    assert!(cache_fresh(u64::MAX, 0, 0));
    assert!(cache_fresh(0, u64::MAX, u64::MAX));
}

#[test]
fn switch_accepts_true_in_any_ascii_case() {
    assert!(balance_switch_on(Some("true")));
    assert!(balance_switch_on(Some("TRUE")));
    assert!(balance_switch_on(Some("tRuE")));
    assert!(!balance_switch_on(Some("yes")));
    assert!(!balance_switch_on(Some("true ")));
    assert!(!balance_switch_on(Some("1")));
    assert!(!balance_switch_on(Some("")));
    assert!(!balance_switch_on(None));
}

#[test]
fn auth_token_is_preferred_over_api_key() {
    assert_eq!(select_api_key(key("anthropic-key"), key("deepseek-key")), key("anthropic-key"));
    assert_eq!(select_api_key(None, key("deepseek-key")), key("deepseek-key"));
    assert_eq!(select_api_key(key("anthropic-key"), None), key("anthropic-key"));
    assert_eq!(select_api_key(None, None), None);
    assert_eq!(
        segment_api_key(Some("TRUE"), "deepseek-chat", key("anthropic-key"), key("deepseek-key")),
        key("anthropic-key")
    );
    assert_eq!(
        segment_api_key(Some("true"), "deepseek-chat", None, key("test-key")),
        key("test-key")
    );
    assert_eq!(segment_api_key(Some("true"), "deepseek-chat", None, None), None);
}

#[test]
fn ttl_defaults_and_saturates() {
    assert_eq!(cache_ttl_ms(None), 3_600_000);
    assert_eq!(cache_ttl_ms(Some("60")), 60_000);
    assert_eq!(cache_ttl_ms(Some("+60")), 60_000);
    assert_eq!(cache_ttl_ms(Some("0")), 0);
    assert_eq!(cache_ttl_ms(Some("abc")), 3_600_000);
    assert_eq!(cache_ttl_ms(Some("-5")), 3_600_000);
    assert_eq!(cache_ttl_ms(Some(" 60")), 3_600_000);
    assert_eq!(cache_ttl_ms(Some("")), 3_600_000);
    assert_eq!(cache_ttl_ms(Some("18446744073709551615")), u64::MAX);
    assert_eq!(cache_ttl_ms(Some("18446744073709551616")), 3_600_000);
    assert_eq!(cache_ttl_ms(Some("18446744073709551")), 18_446_744_073_709_551_000);
    assert_eq!(cache_ttl_ms(Some("18446744073709552")), u64::MAX);
}

/// The in-memory counterpart of one run of the segment after its gate: look the cache up,
/// fetch when it has expired, and keep what the fetch leaves behind.
fn run_once(
    stored: &mut Option<BalanceCache<f64>>,
    now_ms: u64,
    ttl_ms: u64,
    fetch: &dyn Fn() -> Result<f64, String>,
    calls: &mut u32,
) -> Option<f64> {
    match lookup_cache(stored.clone(), now_ms, ttl_ms) {
        // A fresh entry is served as it is and stays stored.
        CacheLookup::Fresh(balance) => balance,
        CacheLookup::Expired(previous) => {
            *calls += 1;
            let record = record_fetch(previous, now_ms, fetch());
            let shown = record.shown;
            *stored = Some(record.cache);
            shown
        }
    }
}

#[test]
fn flow_fresh_cache_served_without_fetch() {
    let ttl_ms = cache_ttl_ms(None);
    let cached = Some(BalanceCache { fetched_at_ms: 1_000_000, balance_cny: Some(110.0), failed_at_ms: None });
    match lookup_cache(cached, 1_000_500, ttl_ms) {
        CacheLookup::Fresh(balance) => assert_eq!(balance, Some(110.0)),
        CacheLookup::Expired(_) => panic!("fetch must not be called"),
    }
}

#[test]
fn flow_failure_writes_cache_and_throttles_retries() {
    let ttl_ms = cache_ttl_ms(None);
    let mut stored: Option<BalanceCache<f64>> = None;
    let mut calls = 0;
    let fail = || Err::<f64, String>("network down".to_string());
    assert_eq!(run_once(&mut stored, 5_000_000, ttl_ms, &fail, &mut calls), None);
    assert_eq!(calls, 1);
    let entry = stored.as_ref().unwrap();
    assert_eq!(entry.failed_at_ms, Some(5_000_000));
    assert_eq!(entry.fetched_at_ms, 5_000_000);
    assert_eq!(entry.balance_cny, None);
    assert_eq!(run_once(&mut stored, 5_000_001, ttl_ms, &fail, &mut calls), None);
    assert_eq!(calls, 1);
}

#[test]
fn flow_failure_keeps_showing_stale_balance() {
    let ttl_ms = cache_ttl_ms(None);
    let mut stored = Some(BalanceCache { fetched_at_ms: 1_000, balance_cny: Some(88.5), failed_at_ms: None });
    let mut calls = 0;
    let fail = || Err::<f64, String>("network down".to_string());
    let now = 1_700_000_000_000;
    assert_eq!(run_once(&mut stored, now, ttl_ms, &fail, &mut calls), Some(88.5));
    assert_eq!(calls, 1);
    assert_eq!(run_once(&mut stored, now + 10, ttl_ms, &fail, &mut calls), Some(88.5));
    assert_eq!(calls, 1);
    // After the throttle window the fetch is tried again, and the stale value still shows.
    assert_eq!(run_once(&mut stored, now + ttl_ms + 1, ttl_ms, &fail, &mut calls), Some(88.5));
    assert_eq!(calls, 2);
}

#[test]
fn flow_success_is_stored_and_served() {
    let ttl_ms = 60_000;
    let mut stored = Some(BalanceCache { fetched_at_ms: 0, balance_cny: Some(1.0), failed_at_ms: Some(10) });
    let mut calls = 0;
    let ok = || Ok::<f64, String>(88.5);
    assert_eq!(run_once(&mut stored, 100_000, ttl_ms, &ok, &mut calls), Some(88.5));
    assert_eq!(calls, 1);
    let entry = stored.as_ref().unwrap();
    assert_eq!(entry.fetched_at_ms, 100_000);
    assert_eq!(entry.balance_cny, Some(88.5));
    assert_eq!(entry.failed_at_ms, None);
    assert_eq!(run_once(&mut stored, 160_000, ttl_ms, &ok, &mut calls), Some(88.5));
    assert_eq!(calls, 1);
}

#[test]
fn failure_time_throttles_not_fetch_time() {
    // An old fetch with a recent failure is fresh; freshness runs from the failure.
    let entry = BalanceCache { fetched_at_ms: 0, balance_cny: Some(3.0), failed_at_ms: Some(50_000) };
    assert_eq!(entry.throttle_from_ms(), 50_000);
    match lookup_cache(Some(entry), 60_000, 10_000) {
        CacheLookup::Fresh(balance) => assert_eq!(balance, Some(3.0)),
        CacheLookup::Expired(_) => panic!("expected a fresh entry"),
    }
    let entry = BalanceCache { fetched_at_ms: 0, balance_cny: Some(3.0), failed_at_ms: Some(50_000) };
    match lookup_cache(Some(entry), 60_001, 10_000) {
        CacheLookup::Fresh(_) => panic!("expected an expired entry"),
        CacheLookup::Expired(previous) => {
            let previous = previous.unwrap();
            assert_eq!(previous.failed_at_ms, Some(50_000));
            assert_eq!(previous.balance_cny, Some(3.0));
        }
    }
    match lookup_cache::<f64>(None, 0, u64::MAX) {
        CacheLookup::Fresh(_) => panic!("nothing is cached"),
        CacheLookup::Expired(previous) => assert!(previous.is_none()),
    }
}
