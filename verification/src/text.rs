//! Character-level text operations used by the balance segment: substring search,
//! ASCII case-insensitive comparison, and the std conversions it relies on.
use vstd::prelude::*;

verus! {

/// `pat` occurs in `s` starting at character position `i`.
pub open spec fn occurs_at(s: Seq<char>, pat: Seq<char>, i: int) -> bool {
    &&& 0 <= i
    &&& i + pat.len() <= s.len()
    &&& forall|k: int| 0 <= k < pat.len() ==> s[i + k] == pat[k]
}

/// `pat` occurs somewhere in `s` (the empty pattern occurs in every text).
pub open spec fn has_infix(s: Seq<char>, pat: Seq<char>) -> bool {
    exists|i: int| #[trigger] occurs_at(s, pat, i)
}

/// The characters of a string, in order.
pub fn chars_of(s: &str) -> (v: Vec<char>)
    ensures
        v@ == s@,
{
    let n: usize = s.unicode_len();
    let mut v: Vec<char> = Vec::new();
    let mut i: usize = 0;
    while i < n
        invariant
            n == s@.len(),
            i <= n,
            v@ == s@.subrange(0, i as int),
        decreases n - i,
    {
        let c = s.get_char(i);
        v.push(c);
        i = i + 1;
    }
    assert(v@ == s@.subrange(0, n as int));
    v
}

/// Whether `needle` occurs in `hay`, as `str::contains` with a string pattern.
pub fn contains_chars(hay: &str, needle: &str) -> (found: bool)
    ensures
        found == has_infix(hay@, needle@),
{
    let h = chars_of(hay);
    let p = chars_of(needle);
    if p.len() > h.len() {
        assert forall|i: int| !occurs_at(hay@, needle@, i) by {}
        return false;
    }
    let hn: usize = h.len();
    let last: usize = hn - p.len();
    let mut i: usize = 0;
    loop
        invariant
            h@ == hay@,
            p@ == needle@,
            last == h@.len() - p@.len(),
            hn == h@.len(),
            i <= last,
            forall|j: int| 0 <= j < i ==> !occurs_at(hay@, needle@, j),
        decreases last - i,
    {
        let mut k: usize = 0;
        let mut mismatch = false;
        while k < p.len() && !mismatch
            invariant
                h@ == hay@,
                p@ == needle@,
                i + p@.len() <= h@.len(),
                hn == h@.len(),
                k <= p@.len(),
                forall|m: int| 0 <= m < k ==> h@[i + m] == p@[m],
                mismatch ==> k < p@.len() && h@[i + k] != p@[k as int],
            decreases p@.len() - k + (if mismatch { 0int } else { 1int }),
        {
            if h[i + k] != p[k] {
                mismatch = true;
            } else {
                k = k + 1;
            }
        }
        if !mismatch {
            assert(occurs_at(hay@, needle@, i as int));
            return true;
        }
        if i == last {
            assert forall|j: int| !occurs_at(hay@, needle@, j) by {
                if 0 <= j && j < i {
                }
            }
            return false;
        }
        i = i + 1;
    }
}

/// The code of `c` after ASCII lower-casing: `A`..=`Z` move to `a`..=`z`, every other
/// character keeps its code.
pub open spec fn ascii_lower_code(c: char) -> u32 {
    if 'A' <= c && c <= 'Z' {
        (c as u32 + 32) as u32
    } else {
        c as u32
    }
}

/// Two texts match when compared without regard to ASCII case.
pub open spec fn ascii_case_insensitive_eq(a: Seq<char>, b: Seq<char>) -> bool {
    &&& a.len() == b.len()
    &&& forall|i: int| 0 <= i < a.len() ==> ascii_lower_code(a[i]) == ascii_lower_code(b[i])
}

fn lower_code(c: char) -> (code: u32)
    ensures
        code == ascii_lower_code(c),
{
    if 'A' <= c && c <= 'Z' {
        c as u32 + 32
    } else {
        c as u32
    }
}

/// ASCII case-insensitive equality, as `str::eq_ignore_ascii_case`.
pub fn eq_ignore_ascii_case(a: &str, b: &str) -> (same: bool)
    ensures
        same == ascii_case_insensitive_eq(a@, b@),
{
    let x = chars_of(a);
    let y = chars_of(b);
    if x.len() != y.len() {
        return false;
    }
    let mut i: usize = 0;
    while i < x.len()
        invariant
            x@ == a@,
            y@ == b@,
            x@.len() == y@.len(),
            i <= x@.len(),
            forall|j: int| 0 <= j < i ==> ascii_lower_code(a@[j]) == ascii_lower_code(b@[j]),
        decreases x@.len() - i,
    {
        if lower_code(x[i]) != lower_code(y[i]) {
            return false;
        }
        i = i + 1;
    }
    true
}

/// Names what `str::to_lowercase` returns for a text: its lower-case form under the
/// Unicode `Lowercase` mapping.
pub uninterp spec fn unicode_lowercase(s: Seq<char>) -> Seq<char>;

/// Every character of the text is ASCII.
pub open spec fn is_ascii_text(s: Seq<char>) -> bool {
    forall|i: int| 0 <= i < s.len() ==> (#[trigger] s[i] as u32) < 128
}

/// Calls `str::to_lowercase`. The contract claims that the result is determined by the
/// characters of `s` (the name `unicode_lowercase`), and, for an all-ASCII text, what the
/// Unicode lower-case mapping documented for it gives there: `A`..=`Z` become `a`..=`z`,
/// every other ASCII character is kept, one character for one. Nothing is claimed about
/// non-ASCII characters.
#[verifier::external_body]
pub(crate) fn to_lowercase(s: &str) -> (lower: String)
    ensures
        lower@ == unicode_lowercase(s@),
        is_ascii_text(s@) ==> lower@.len() == s@.len(),
        is_ascii_text(s@) ==> forall|i: int|
            0 <= i < s@.len() ==> #[trigger] lower@[i] as u32 == ascii_lower_code(s@[i]),
{
    s.to_lowercase()
}

/// `pat` occurs in `s` at position `i` when ASCII case is ignored.
pub open spec fn occurs_at_ignoring_ascii_case(s: Seq<char>, pat: Seq<char>, i: int) -> bool {
    &&& 0 <= i
    &&& i + pat.len() <= s.len()
    &&& forall|k: int|
        0 <= k < pat.len() ==> ascii_lower_code(#[trigger] s[i + k]) == ascii_lower_code(pat[k])
}

/// `pat` occurs somewhere in `s` when ASCII case is ignored.
pub open spec fn has_infix_ignoring_ascii_case(s: Seq<char>, pat: Seq<char>) -> bool {
    exists|i: int| #[trigger] occurs_at_ignoring_ascii_case(s, pat, i)
}

/// ASCII case-insensitive equality is symmetric and transitive: texts that match the same
/// text match each other.
pub proof fn lemma_ascii_case_insensitive_eq_transitive(a: Seq<char>, b: Seq<char>, c: Seq<char>)
    requires
        ascii_case_insensitive_eq(a, b),
    ensures
        ascii_case_insensitive_eq(b, a),
        ascii_case_insensitive_eq(b, c) ==> ascii_case_insensitive_eq(a, c),
        ascii_case_insensitive_eq(a, c) ==> ascii_case_insensitive_eq(b, c),
{
}

/// An ASCII decimal digit.
pub open spec fn is_decimal_digit(c: char) -> bool {
    '0' <= c && c <= '9'
}

/// The value of a run of decimal digits, most significant first.
pub open spec fn digits_value(d: Seq<char>) -> int
    decreases d.len(),
{
    if d.len() == 0 {
        0
    } else {
        10 * digits_value(d.drop_last()) + (d.last() as int - '0' as int)
    }
}

/// What `u64::from_str` accepts: an optional `+`, then one or more ASCII digits whose
/// value fits in a `u64`; anything else (signs, spaces, underscores, overflow) is refused.
pub open spec fn parsed_u64(s: Seq<char>) -> Option<u64> {
    let d = if s.len() > 0 && s[0] == '+' {
        s.drop_first()
    } else {
        s
    };
    if d.len() > 0 && (forall|i: int| 0 <= i < d.len() ==> is_decimal_digit(#[trigger] d[i]))
        && digits_value(d) <= u64::MAX {
        Some(digits_value(d) as u64)
    } else {
        None
    }
}

/// Calls `str::parse::<u64>`, keeping the value and dropping the error. The contract
/// restates the documented grammar of `u64::from_str`: an optional `+` followed by one or
/// more ASCII digits, refused on any other character or on overflow.
#[verifier::external_body]
pub(crate) fn parse_u64(s: &str) -> (n: Option<u64>)
    ensures
        n == parsed_u64(s@),
{
    s.parse::<u64>().ok()
}

/// The ASCII digit of value `d` (for `d < 10`).
pub open spec fn digit_char(d: nat) -> char {
    (d + 48) as char
}

/// The decimal text of `n`, without sign or leading zeros.
pub open spec fn decimal_text(n: nat) -> Seq<char>
    decreases n,
{
    if n < 10 {
        seq![digit_char(n)]
    } else {
        decimal_text(n / 10).push(digit_char(n % 10))
    }
}

/// Calls `u16::to_string`. The contract claims the documented `Display` form of an
/// unsigned integer: its decimal digits, without sign or leading zeros.
#[verifier::external_body]
pub(crate) fn u16_text(n: u16) -> (text: String)
    ensures
        text@ == decimal_text(n as nat),
{
    n.to_string()
}

} // verus!
