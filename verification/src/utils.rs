use vstd::prelude::*;
use crate::error::{AppError, AppResult};

verus! {

/// The prefix of `s` holding at most `max` code points: inputs of `max` or
/// more code points are cut to exactly `max`, shorter ones stay unchanged.
pub open spec fn spec_truncated(s: Seq<char>, max: int) -> Seq<char> {
    if s.len() >= max {
        s.subrange(0, max)
    } else {
        s
    }
}

/// Truncation law: a string of `max` or more code points is cut to exactly
/// `max` code points; a shorter one comes back unchanged.
pub proof fn lemma_truncation_law(s: Seq<char>, max: int)
    requires
        max >= 0,
    ensures
        s.len() >= max ==> spec_truncated(s, max).len() == max,
        s.len() < max ==> spec_truncated(s, max) == s,
{
}

/// Returns the prefix of `text` that holds at most `max_length` code points.
/// Shorter inputs come back unchanged; longer ones are cut to exactly
/// `max_length` code points.
pub fn truncate(text: &str, max_length: usize) -> (r: &str)
    ensures
        r@ == spec_truncated(text@, max_length as int),
{
    let n = text.unicode_len();
    if n <= max_length {
        text
    } else {
        text.substring_char(0, max_length)
    }
}

/// Relies on std's `String::push`: appends one character at the end.
#[verifier::external_body]
pub fn push_char(s: &mut String, c: char)
    ensures
        final(s)@ == old(s)@.push(c),
{
    s.push(c);
}

/// Character-for-character string comparison.
pub fn str_eq(a: &str, b: &str) -> (r: bool)
    ensures
        r == (a@ == b@),
{
    let na = a.unicode_len();
    let nb = b.unicode_len();
    if na != nb {
        return false;
    }
    let mut i: usize = 0;
    while i < na
        invariant
            na == a@.len(),
            na == b@.len(),
            i <= na,
            forall|j: int| 0 <= j < i ==> a@[j] == b@[j],
        decreases na - i,
    {
        if a.get_char(i) != b.get_char(i) {
            return false;
        }
        i += 1;
    }
    proof {
        assert(a@ =~= b@);
    }
    true
}

/// Returns `text` with every occurrence of `c` removed.
pub fn remove_char(text: &str, c: char) -> (r: String)
    ensures
        r@ == text@.filter(|x: char| x != c),
{
    let n = text.unicode_len();
    let mut out = String::new();
    let mut i: usize = 0;
    while i < n
        invariant
            n == text@.len(),
            i <= n,
            out@ == text@.take(i as int).filter(|x: char| x != c),
        decreases n - i,
    {
        let ch = text.get_char(i);
        if ch != c {
            push_char(&mut out, ch);
        }
        proof {
            reveal(Seq::filter);
            assert(text@.take(i + 1).drop_last() =~= text@.take(i as int));
            assert(text@.take(i + 1).last() == text@[i as int]);
        }
        i += 1;
    }
    proof {
        assert(text@.take(n as int) =~= text@);
    }
    out
}

/// The whitespace characters trimmed from adapter output lines.
pub open spec fn is_ws(c: char) -> bool {
    c == ' ' || c == '\t' || c == '\n' || c == '\r'
}

/// `s` with leading whitespace removed.
pub open spec fn trim_front(s: Seq<char>) -> Seq<char>
    decreases s.len(),
{
    if s.len() > 0 && is_ws(s[0]) {
        trim_front(s.drop_first())
    } else {
        s
    }
}

/// `s` with trailing whitespace removed.
pub open spec fn trim_back(s: Seq<char>) -> Seq<char>
    decreases s.len(),
{
    if s.len() > 0 && is_ws(s.last()) {
        trim_back(s.drop_last())
    } else {
        s
    }
}

/// `s` with whitespace removed at both ends.
pub open spec fn spec_trimmed(s: Seq<char>) -> Seq<char> {
    trim_front(trim_back(s))
}

proof fn lemma_trim_back_skip(s: Seq<char>, b: int)
    requires
        0 <= b <= s.len(),
        forall|k: int| b <= k < s.len() ==> is_ws(#[trigger] s[k]),
        b > 0 ==> !is_ws(s[b - 1]),
    ensures
        trim_back(s) == s.subrange(0, b),
    decreases s.len(),
{
    if s.len() == 0 {
        assert(trim_back(s) =~= s.subrange(0, 0));
    } else if b == s.len() as int {
        assert(trim_back(s) =~= s.subrange(0, b));
    } else {
        assert(is_ws(s.last()));
        let d = s.drop_last();
        assert forall|k: int| b <= k < d.len() implies is_ws(#[trigger] d[k]) by {
            assert(d[k] == s[k]);
        }
        assert(b > 0 ==> d[b - 1] == s[b - 1]);
        lemma_trim_back_skip(d, b);
        assert(d.subrange(0, b) =~= s.subrange(0, b));
    }
}

proof fn lemma_trim_front_skip(s: Seq<char>, a: int)
    requires
        0 <= a <= s.len(),
        forall|k: int| 0 <= k < a ==> is_ws(#[trigger] s[k]),
        a < s.len() ==> !is_ws(s[a]),
    ensures
        trim_front(s) == s.subrange(a, s.len() as int),
    decreases a,
{
    if a == 0 {
        assert(trim_front(s) =~= s.subrange(0, s.len() as int));
    } else {
        assert(is_ws(s[0]));
        let d = s.drop_first();
        assert forall|k: int| 0 <= k < a - 1 implies is_ws(#[trigger] d[k]) by {
            assert(d[k] == s[k + 1]);
        }
        assert(a - 1 < d.len() ==> d[a - 1] == s[a]);
        lemma_trim_front_skip(d, a - 1);
        assert(d.subrange(a - 1, d.len() as int) =~= s.subrange(a, s.len() as int));
    }
}

/// Returns `text` with whitespace removed at both ends.
pub fn trim_ws(text: &str) -> (r: &str)
    ensures
        r@ == spec_trimmed(text@),
{
    let n = text.unicode_len();
    let mut b: usize = n;
    let mut done_back = false;
    while !done_back && b > 0
        invariant
            b <= n,
            n == text@.len(),
            forall|k: int| b <= k < n ==> is_ws(#[trigger] text@[k]),
            done_back ==> (b > 0 && !is_ws(text@[b - 1])),
        decreases 2 * b + (if done_back { 0int } else { 1int }),
    {
        let c = text.get_char(b - 1);
        if c == ' ' || c == '\t' || c == '\n' || c == '\r' {
            b = b - 1;
        } else {
            done_back = true;
        }
    }
    let mut a: usize = 0;
    let mut done_front = false;
    while !done_front && a < b
        invariant
            a <= b <= n,
            n == text@.len(),
            forall|k: int| 0 <= k < a ==> is_ws(#[trigger] text@[k]),
            done_front ==> (a < b && !is_ws(text@[a as int])),
        decreases 2 * (b - a) + (if done_front { 0int } else { 1int }),
    {
        let c = text.get_char(a);
        if c == ' ' || c == '\t' || c == '\n' || c == '\r' {
            a = a + 1;
        } else {
            done_front = true;
        }
    }
    let r = text.substring_char(a, b);
    proof {
        lemma_trim_back_skip(text@, b as int);
        let sub = text@.subrange(0, b as int);
        assert forall|k: int| 0 <= k < a implies is_ws(#[trigger] sub[k]) by {
            assert(sub[k] == text@[k]);
        }
        assert(a < b ==> sub[a as int] == text@[a as int]);
        lemma_trim_front_skip(sub, a as int);
        assert(sub.subrange(a as int, sub.len() as int) =~= text@.subrange(a as int, b as int));
    }
    r
}

/// All characters are decimal digits.
pub open spec fn all_digits(s: Seq<char>) -> bool {
    forall|k: int| 0 <= k < s.len() ==> '0' <= #[trigger] s[k] <= '9'
}

/// The number a digit string names.
pub open spec fn digits_val(s: Seq<char>) -> int
    decreases s.len(),
{
    if s.len() == 0 {
        0
    } else {
        digits_val(s.drop_last()) * 10 + (s.last() as int - '0' as int)
    }
}

proof fn lemma_digits_val_nonneg(s: Seq<char>)
    requires
        all_digits(s),
    ensures
        digits_val(s) >= 0,
    decreases s.len(),
{
    if s.len() > 0 {
        assert(all_digits(s.drop_last())) by {
            assert(forall|k: int| 0 <= k < s.len() - 1 ==> s.drop_last()[k] == #[trigger] s[k]);
        }
        lemma_digits_val_nonneg(s.drop_last());
    }
}

/// Parses a nonempty string of decimal digits whose value is at most `cap`;
/// anything else gives nothing.
pub fn parse_decimal_capped(s: &str, cap: u64) -> (r: Option<u64>)
    requires
        cap <= 1000000,
    ensures
        r matches Some(v) ==> s@.len() > 0 && all_digits(s@) && digits_val(s@) == v && v <= cap,
        r is None ==> (s@.len() == 0 || !all_digits(s@) || digits_val(s@) > cap),
{
    let n = s.unicode_len();
    if n == 0 {
        return None;
    }
    let mut acc: u64 = 0;
    let mut i: usize = 0;
    proof {
        assert(s@.take(0) =~= Seq::<char>::empty());
    }
    while i < n
        invariant
            i <= n,
            n == s@.len(),
            cap <= 1000000,
            all_digits(s@.take(i as int)),
            acc <= cap + 1,
            digits_val(s@.take(i as int)) <= cap ==> acc == digits_val(s@.take(i as int)),
            digits_val(s@.take(i as int)) > cap ==> acc == cap + 1,
        decreases n - i,
    {
        let c = s.get_char(i);
        let cv: u32 = c as u32;
        if cv < 48 || cv > 57 {
            proof {
                assert(!('0' <= s@[i as int] <= '9'));
                assert(!all_digits(s@));
            }
            return None;
        }
        let d: u64 = (cv - 48) as u64;
        let next: u64 = acc * 10 + d;
        proof {
            let t1 = s@.take(i as int + 1);
            let t0 = s@.take(i as int);
            assert(t1.drop_last() =~= t0);
            assert(t1.last() == s@[i as int]);
            assert(all_digits(t1)) by {
                assert(forall|k: int| 0 <= k < t1.len() - 1 ==> t1[k] == #[trigger] t0[k]);
            }
            lemma_digits_val_nonneg(t0);
            assert(digits_val(t1) == digits_val(t0) * 10 + d);
        }
        if next > cap {
            acc = cap + 1;
        } else {
            acc = next;
        }
        i += 1;
    }
    proof {
        assert(s@.take(n as int) =~= s@);
    }
    if acc > cap {
        None
    } else {
        Some(acc)
    }
}

/// Relies on std's `SystemTime::now` and `duration_since`: seconds of
/// wall-clock time since the Unix epoch. The clock decides the value, so
/// nothing is promised of it.
#[verifier::external_body]
pub fn current_time_as_u64() -> AppResult<u64> {
    let start = std::time::SystemTime::now();
    let since_the_epoch = start
        .duration_since(std::time::UNIX_EPOCH)
        .map_err(|e| AppError::Internal(format!("SYSTEM TIME ERROR: {}", e)))?;
    Ok(since_the_epoch.as_secs())
}

} // verus!
