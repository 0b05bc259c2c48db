//! Whether the balance segment is shown at all, with which API key, and how long a fetched
//! balance is cached. The host reads the environment and hands the raw values in.
use vstd::prelude::*;
use crate::text::{
    ascii_case_insensitive_eq, ascii_lower_code, contains_chars, eq_ignore_ascii_case, has_infix,
    has_infix_ignoring_ascii_case, is_ascii_text, lemma_ascii_case_insensitive_eq_transitive,
    occurs_at, occurs_at_ignoring_ascii_case, parse_u64, parsed_u64, to_lowercase,
    unicode_lowercase,
};

verus! {

/// The cache TTL, in seconds, when none (or an unreadable one) is configured.
pub const DEFAULT_CACHE_TTL_SECONDS: u64 = 3600;

/// The model-name fragment that marks a DeepSeek model.
pub open spec fn deepseek_marker() -> Seq<char> {
    seq!['d', 'e', 'e', 'p', 's', 'e', 'e', 'k']
}

/// The word that switches the segment on.
pub open spec fn switch_word() -> Seq<char> {
    seq!['t', 'r', 'u', 'e']
}

/// A model is a DeepSeek model when its lower-cased name contains `deepseek`.
pub open spec fn names_deepseek(model_id: Seq<char>) -> bool {
    has_infix(unicode_lowercase(model_id), deepseek_marker())
}

/// The marker is already in lower case, so each of its characters is its own ASCII
/// lower-casing.
proof fn lemma_marker_is_lower_case()
    ensures
        forall|k: int|
            0 <= k < deepseek_marker().len() ==> ascii_lower_code(#[trigger] deepseek_marker()[k])
                == deepseek_marker()[k] as u32,
{
    let pat = deepseek_marker();
    assert forall|k: int| 0 <= k < pat.len() implies ascii_lower_code(#[trigger] pat[k])
        == pat[k] as u32 by {
        assert(pat[k] == 'd' || pat[k] == 'e' || pat[k] == 'p' || pat[k] == 's' || pat[k] == 'k');
    }
}

/// Characters with the same code are the same character.
proof fn lemma_char_code_injective(a: char, b: char)
    requires
        a as u32 == b as u32,
    ensures
        a == b,
{
    assert(a as int == b as int);
}

/// When `lower` is the ASCII lower-casing of `m`, the marker occurs in `lower` exactly
/// when it occurs in `m` with ASCII case ignored.
proof fn lemma_lowered_marker_search(m: Seq<char>, lower: Seq<char>)
    requires
        lower.len() == m.len(),
        forall|j: int| 0 <= j < m.len() ==> #[trigger] lower[j] as u32 == ascii_lower_code(m[j]),
    ensures
        has_infix(lower, deepseek_marker()) == has_infix_ignoring_ascii_case(m, deepseek_marker()),
{
    let pat = deepseek_marker();
    lemma_marker_is_lower_case();
    assert forall|i: int| occurs_at(lower, pat, i) implies occurs_at_ignoring_ascii_case(m, pat, i) by {
        assert forall|k: int| 0 <= k < pat.len() implies ascii_lower_code(#[trigger] m[i + k])
            == ascii_lower_code(pat[k]) by {
            assert(lower[i + k] == pat[k]);
            assert(lower[i + k] as u32 == ascii_lower_code(m[i + k]));
            assert(ascii_lower_code(pat[k]) == pat[k] as u32);
        }
    }
    assert forall|i: int| occurs_at_ignoring_ascii_case(m, pat, i) implies occurs_at(lower, pat, i) by {
        assert forall|k: int| 0 <= k < pat.len() implies lower[i + k] == pat[k] by {
            assert(ascii_lower_code(m[i + k]) == ascii_lower_code(pat[k]));
            assert(lower[i + k] as u32 == ascii_lower_code(m[i + k]));
            assert(ascii_lower_code(pat[k]) == pat[k] as u32);
            lemma_char_code_injective(lower[i + k], pat[k]);
        }
    }
    if has_infix(lower, pat) {
        let i = choose|i: int| occurs_at(lower, pat, i);
        assert(occurs_at_ignoring_ascii_case(m, pat, i));
    }
    if has_infix_ignoring_ascii_case(m, pat) {
        let i = choose|i: int| occurs_at_ignoring_ascii_case(m, pat, i);
        assert(occurs_at(lower, pat, i));
    }
}

/// Whether `model_id` names a DeepSeek model, whatever its case. For an ASCII model id
/// this is exactly: `deepseek` occurs in it with ASCII case ignored.
pub fn is_deepseek_model(model_id: &str) -> (deepseek: bool)
    ensures
        deepseek == names_deepseek(model_id@),
        is_ascii_text(model_id@) ==> deepseek == has_infix_ignoring_ascii_case(
            model_id@,
            deepseek_marker(),
        ),
{
    let lower = to_lowercase(model_id);
    let marker = "deepseek";
    proof {
        reveal_strlit("deepseek");
        assert(marker@ == deepseek_marker());
        if is_ascii_text(model_id@) {
            lemma_lowered_marker_search(model_id@, lower@);
        }
    }
    contains_chars(lower.as_str(), marker)
}

/// Detection ignores ASCII case: two model ids that differ only in ASCII case either both
/// contain the marker (case ignored) or neither does; with the `ensures` of
/// `is_deepseek_model`, two such ASCII ids are both DeepSeek models or neither is.
pub proof fn lemma_detection_ignores_ascii_case(a: Seq<char>, b: Seq<char>)
    requires
        ascii_case_insensitive_eq(a, b),
    ensures
        has_infix_ignoring_ascii_case(a, deepseek_marker()) == has_infix_ignoring_ascii_case(
            b,
            deepseek_marker(),
        ),
{
    let pat = deepseek_marker();
    if has_infix_ignoring_ascii_case(a, pat) {
        let i = choose|i: int| occurs_at_ignoring_ascii_case(a, pat, i);
        assert forall|k: int| 0 <= k < pat.len() implies ascii_lower_code(#[trigger] b[i + k])
            == ascii_lower_code(pat[k]) by {
            assert(ascii_lower_code(a[i + k]) == ascii_lower_code(pat[k]));
        }
        assert(occurs_at_ignoring_ascii_case(b, pat, i));
    }
    if has_infix_ignoring_ascii_case(b, pat) {
        let i = choose|i: int| occurs_at_ignoring_ascii_case(b, pat, i);
        assert forall|k: int| 0 <= k < pat.len() implies ascii_lower_code(#[trigger] a[i + k])
            == ascii_lower_code(pat[k]) by {
            assert(ascii_lower_code(b[i + k]) == ascii_lower_code(pat[k]));
        }
        assert(occurs_at_ignoring_ascii_case(a, pat, i));
    }
}

/// The switch is on exactly when it is set to `true` in any ASCII case.
pub open spec fn switch_on(value: Option<&str>) -> bool {
    match value {
        Some(v) => ascii_case_insensitive_eq(v@, switch_word()),
        None => false,
    }
}

/// Reads the on/off switch; an unset switch is off.
pub fn balance_switch_on(value: Option<&str>) -> (on: bool)
    ensures
        on == switch_on(value),
        value matches Some(v) ==> (on <==> ascii_case_insensitive_eq(v@, switch_word())),
        value is None ==> !on,
{
    match value {
        Some(v) => {
            let word = "true";
            proof {
                reveal_strlit("true");
                assert(word@ == switch_word());
            }
            eq_ignore_ascii_case(v, word)
        },
        None => false,
    }
}

/// The key used for the request: the auth token of the current account when set,
/// otherwise the DeepSeek API key.
pub fn select_api_key(auth_token: Option<String>, api_key: Option<String>) -> (key: Option<String>)
    ensures
        key == (match auth_token {
            Some(token) => Some(token),
            None => api_key,
        }),
{
    match auth_token {
        Some(token) => Some(token),
        None => api_key,
    }
}

/// The cache TTL in milliseconds for a configured TTL in seconds: a value that does not
/// parse as a `u64` falls back to the default, and the conversion saturates.
pub open spec fn ttl_ms_for(value: Option<&str>) -> u64 {
    let seconds: u64 = match value {
        Some(v) => match parsed_u64(v@) {
            Some(n) => n,
            None => DEFAULT_CACHE_TTL_SECONDS,
        },
        None => DEFAULT_CACHE_TTL_SECONDS,
    };
    if seconds * 1000 > u64::MAX {
        u64::MAX
    } else {
        (seconds * 1000) as u64
    }
}

/// The cache TTL in milliseconds from the configured number of seconds.
pub fn cache_ttl_ms(value: Option<&str>) -> (ttl_ms: u64)
    ensures
        ttl_ms == ttl_ms_for(value),
        (match value {
            Some(v) => match parsed_u64(v@) {
                Some(n) => ttl_ms == (if n * 1000 > u64::MAX {
                    u64::MAX
                } else {
                    (n * 1000) as u64
                }),
                None => ttl_ms == 3_600_000,
            },
            None => ttl_ms == 3_600_000,
        }),
{
    let seconds: u64 = match value {
        Some(v) => match parse_u64(v) {
            Some(n) => n,
            None => DEFAULT_CACHE_TTL_SECONDS,
        },
        None => DEFAULT_CACHE_TTL_SECONDS,
    };
    match seconds.checked_mul(1000) {
        Some(ms) => ms,
        None => u64::MAX,
    }
}

/// The switch ignores ASCII case: two settings that differ only in ASCII case switch the
/// segment the same way, and every spelling of `true` in any ASCII case turns it on.
pub proof fn lemma_switch_ignores_ascii_case(a: &str, b: &str)
    requires
        ascii_case_insensitive_eq(a@, b@),
    ensures
        switch_on(Some(a)) == switch_on(Some(b)),
        ascii_case_insensitive_eq(a@, switch_word()) ==> switch_on(Some(a)) && switch_on(Some(b)),
{
    lemma_ascii_case_insensitive_eq_transitive(a@, b@, switch_word());
}

/// An unset switch is off, and a set one is on exactly for `true` in any ASCII case.
pub proof fn lemma_switch_on_only_for_true(value: Option<&str>)
    ensures
        value is None ==> !switch_on(value),
        value matches Some(v) ==> (switch_on(value) <==> ascii_case_insensitive_eq(
            v@,
            switch_word(),
        )),
{
}

/// A TTL that parses as `n` seconds is `n * 1000` milliseconds, saturating at `u64::MAX`.
pub proof fn lemma_configured_ttl(v: &str, n: u64)
    requires
        parsed_u64(v@) == Some(n),
    ensures
        ttl_ms_for(Some(v)) == (if n * 1000 > u64::MAX {
            u64::MAX
        } else {
            (n * 1000) as u64
        }),
{
}

/// A TTL that is unset or does not parse gives one hour, in milliseconds.
pub proof fn lemma_default_ttl(value: Option<&str>)
    requires
        match value {
            Some(v) => parsed_u64(v@) is None,
            None => true,
        },
    ensures
        ttl_ms_for(value) == 3_600_000,
{
}

/// A longer configured TTL never gives a shorter cache lifetime.
pub proof fn lemma_ttl_monotone(a: &str, b: &str, n: u64, m: u64)
    requires
        parsed_u64(a@) == Some(n),
        parsed_u64(b@) == Some(m),
        n <= m,
    ensures
        ttl_ms_for(Some(a)) <= ttl_ms_for(Some(b)),
{
    assert(n * 1000 <= m * 1000) by (nonlinear_arith)
        requires
            n <= m,
    ;
}

/// The first gate of the segment: it is shown only when switched on, for a DeepSeek model,
/// with a key available; the answer is the key to fetch with. The switch is looked at
/// first, so nothing else matters while it is off.
pub fn segment_api_key(
    switch: Option<&str>,
    model_id: &str,
    auth_token: Option<String>,
    api_key: Option<String>,
) -> (key: Option<String>)
    ensures
        key == (if switch_on(switch) && names_deepseek(model_id@) {
            match auth_token {
                Some(token) => Some(token),
                None => api_key,
            }
        } else {
            None
        }),
{
    if !balance_switch_on(switch) {
        return None;
    }
    if !is_deepseek_model(model_id) {
        return None;
    }
    select_api_key(auth_token, api_key)
}

} // verus!
