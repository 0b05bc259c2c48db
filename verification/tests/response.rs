use deepseek_balance::clock::{epoch_millis, now_millis};
use deepseek_balance::response::{check_status, BalanceInfo, BalanceResponse, FetchError};
use deepseek_balance::text::{contains_chars, eq_ignore_ascii_case};

fn info(total: &str) -> BalanceInfo {
    BalanceInfo { total_balance: total.to_string() }
}

#[test]
fn first_total_balance_takes_the_first_entry() {
    let response = BalanceResponse { balance_infos: vec![info("110.00"), info("5.00")] };
    assert_eq!(response.first_total_balance(), Some("110.00"));
    let empty = BalanceResponse { balance_infos: vec![] };
    assert_eq!(empty.first_total_balance(), None);
    let odd = BalanceResponse { balance_infos: vec![info("abc")] };
    assert_eq!(odd.first_total_balance(), Some("abc"));
}

#[test]
fn only_status_200_is_accepted() {
    assert!(check_status(200).is_ok());
    assert!(matches!(check_status(404), Err(FetchError::Status(404))));
    assert!(matches!(check_status(201), Err(FetchError::Status(201))));
    assert!(matches!(check_status(0), Err(FetchError::Status(0))));
}

#[test]
fn fetch_error_messages() {
    assert_eq!(FetchError::Status(503).message(), "HTTP 503");
    assert_eq!(FetchError::Status(0).message(), "HTTP 0");
    assert_eq!(FetchError::Status(65535).message(), "HTTP 65535");
    assert_eq!(FetchError::InvalidBody.message(), "invalid balance response");
    assert_eq!(FetchError::Transport("timed out".to_string()).message(), "timed out");
}

#[test]
fn epoch_millis_truncates_to_64_bits() {
    assert_eq!(epoch_millis(None), 0);
    assert_eq!(epoch_millis(Some(1_700_000_000_123)), 1_700_000_000_123);
    assert_eq!(epoch_millis(Some((1u128 << 64) + 5)), 5);
    assert_eq!(epoch_millis(Some(u64::MAX as u128)), u64::MAX);
}

#[test]
fn now_millis_reads_the_clock() {
    let first = now_millis();
    // Later than 2020-01-01 and no later than a second reading.
    assert!(first > 1_577_836_800_000);
    assert!(now_millis() >= first);
}

#[test]
fn substring_search() {
    assert!(contains_chars("openrouter/deepseek/deepseek-r1", "deepseek"));
    assert!(contains_chars("abc", ""));
    assert!(contains_chars("", ""));
    assert!(!contains_chars("", "a"));
    assert!(contains_chars("aaab", "aab"));
    assert!(!contains_chars("ab", "abc"));
    assert!(contains_chars("ÄdeepseekÖ", "deepseek"));
}

#[test]
fn ascii_case_insensitive_equality() {
    assert!(eq_ignore_ascii_case("TrUe", "true"));
    assert!(eq_ignore_ascii_case("", ""));
    assert!(!eq_ignore_ascii_case("true", "tru"));
    assert!(!eq_ignore_ascii_case("Ä", "ä"));
    assert!(eq_ignore_ascii_case("Ä", "Ä"));
    assert!(!eq_ignore_ascii_case("@", "`"));
}
