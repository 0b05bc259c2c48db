# deepseek_balance

The decisions behind the DeepSeek balance segment of a status line, verified with Verus.

- `src/segment.rs`: whether the segment is shown (switch, model name), which API key is
  used, and the cache TTL taken from its configured number of seconds.
- `src/cache.rs`: cache freshness, the lookup that serves a fresh entry or asks for a
  fetch, what a fetch stores and shows, and the laws of throttled retries.
- `src/response.rs`: the fields of the endpoint's answer that are read, and fetch errors.
- `src/clock.rs`: milliseconds since the Unix epoch.
- `src/text.rs`: substring search, ASCII case-insensitive comparison, and the std
  conversions the rest relies on.
- `app/lib.rs`: environment variables, the cache file, the HTTP request, and the balance
  as a floating-point number (parsed, compared with the warning threshold, formatted).
