//! Verified text helpers: decimal rendering of exit codes, whitespace-field
//! parsing of version output, substring search over SDK listings, and the
//! strip of the stray trailing artifact found in the manager's config file.

use vstd::prelude::*;
use vstd::string::*;

verus! {

/// The character for one decimal digit.
pub open spec fn spec_digit_char(d: int) -> char {
    if d == 0 {
        '0'
    } else if d == 1 {
        '1'
    } else if d == 2 {
        '2'
    } else if d == 3 {
        '3'
    } else if d == 4 {
        '4'
    } else if d == 5 {
        '5'
    } else if d == 6 {
        '6'
    } else if d == 7 {
        '7'
    } else if d == 8 {
        '8'
    } else {
        '9'
    }
}

/// Decimal digits of a non-negative integer, most significant first.
pub open spec fn spec_udec(n: nat) -> Seq<char>
    decreases n,
{
    if n < 10 {
        seq![spec_digit_char(n as int)]
    } else {
        spec_udec(n / 10).push(spec_digit_char((n % 10) as int))
    }
}

/// Decimal rendering of an integer: digits base ten, a leading '-' when negative.
pub open spec fn spec_decimal(v: int) -> Seq<char> {
    if v >= 0 {
        spec_udec(v as nat)
    } else {
        seq!['-'] + spec_udec((-v) as nat)
    }
}

fn digit_string(d: u64) -> (r: String)
    requires
        d < 10,
    ensures
        r@ == seq![spec_digit_char(d as int)],
{
    let s: &str = if d == 0 {
        proof {
            reveal_strlit("0");
        }
        "0"
    } else if d == 1 {
        proof {
            reveal_strlit("1");
        }
        "1"
    } else if d == 2 {
        proof {
            reveal_strlit("2");
        }
        "2"
    } else if d == 3 {
        proof {
            reveal_strlit("3");
        }
        "3"
    } else if d == 4 {
        proof {
            reveal_strlit("4");
        }
        "4"
    } else if d == 5 {
        proof {
            reveal_strlit("5");
        }
        "5"
    } else if d == 6 {
        proof {
            reveal_strlit("6");
        }
        "6"
    } else if d == 7 {
        proof {
            reveal_strlit("7");
        }
        "7"
    } else if d == 8 {
        proof {
            reveal_strlit("8");
        }
        "8"
    } else {
        proof {
            reveal_strlit("9");
        }
        "9"
    };
    proof {
        assert(s@ =~= seq![spec_digit_char(d as int)]);
    }
    String::from_str(s)
}

/// Decimal digits of an unsigned value.
pub fn udec_string(n: u64) -> (r: String)
    ensures
        r@ == spec_udec(n as nat),
    decreases n,
{
    if n < 10 {
        digit_string(n)
    } else {
        let mut prefix = udec_string(n / 10);
        let d = digit_string(n % 10);
        prefix.append(d.as_str());
        proof {
            assert(prefix@ =~= spec_udec((n / 10) as nat).push(spec_digit_char((n % 10) as int)));
        }
        prefix
    }
}

/// Decimal rendering of an exit code, negative values with a leading '-'.
pub fn decimal_string(code: i32) -> (r: String)
    ensures
        r@ == spec_decimal(code as int),
{
    if code >= 0 {
        let r = udec_string(code as u64);
        r
    } else {
        let mag: u64 = (-(code as i64)) as u64;
        let digits = udec_string(mag);
        let minus = String::from_str("-");
        let r = minus.concat(digits.as_str());
        proof {
            reveal_strlit("-");
            assert("-"@ =~= seq!['-']);
        }
        r
    }
}

/// The whitespace characters that delimit fields of compiler output.
pub open spec fn spec_is_ws(c: char) -> bool {
    c == ' ' || c == '\t' || c == '\n' || c == '\r'
}

/// Index of the first non-whitespace character at or after `i`, or the length.
pub open spec fn spec_skip_ws(s: Seq<char>, i: int) -> int
    decreases s.len() - i,
{
    if i < 0 || i >= s.len() {
        s.len() as int
    } else if spec_is_ws(s[i]) {
        spec_skip_ws(s, i + 1)
    } else {
        i
    }
}

/// Index of the first whitespace character at or after `i`, or the length.
pub open spec fn spec_skip_tok(s: Seq<char>, i: int) -> int
    decreases s.len() - i,
{
    if i < 0 || i >= s.len() {
        s.len() as int
    } else if !spec_is_ws(s[i]) {
        spec_skip_tok(s, i + 1)
    } else {
        i
    }
}

/// The third whitespace-delimited field of `s`, if `s` has at least three fields.
pub open spec fn spec_third_field(s: Seq<char>) -> Option<Seq<char>> {
    let a0 = spec_skip_ws(s, 0);
    let e0 = spec_skip_tok(s, a0);
    let a1 = spec_skip_ws(s, e0);
    let e1 = spec_skip_tok(s, a1);
    let a2 = spec_skip_ws(s, e1);
    let e2 = spec_skip_tok(s, a2);
    if a2 >= s.len() {
        None
    } else {
        Some(s.subrange(a2, e2))
    }
}

fn is_ws_char(c: char) -> (r: bool)
    ensures
        r == spec_is_ws(c),
{
    c == ' ' || c == '\t' || c == '\n' || c == '\r'
}

fn skip_ws(s: &str, start: usize) -> (r: usize)
    requires
        start <= s@.len(),
    ensures
        r == spec_skip_ws(s@, start as int),
        start <= r <= s@.len(),
{
    let n = s.unicode_len();
    let mut i = start;
    while i < n && is_ws_char(s.get_char(i))
        invariant
            start <= i <= n,
            n == s@.len(),
            spec_skip_ws(s@, start as int) == spec_skip_ws(s@, i as int),
        decreases n - i,
    {
        i = i + 1;
    }
    i
}

fn skip_tok(s: &str, start: usize) -> (r: usize)
    requires
        start <= s@.len(),
    ensures
        r == spec_skip_tok(s@, start as int),
        start <= r <= s@.len(),
{
    let n = s.unicode_len();
    let mut i = start;
    while i < n && !is_ws_char(s.get_char(i))
        invariant
            start <= i <= n,
            n == s@.len(),
            spec_skip_tok(s@, start as int) == spec_skip_tok(s@, i as int),
        decreases n - i,
    {
        i = i + 1;
    }
    i
}

/// Extracts the third whitespace-delimited field of `s`, the position where a
/// compiler reports its version number.
pub fn third_whitespace_field(s: &str) -> (r: Option<String>)
    ensures
        match r {
            Some(t) => spec_third_field(s@) == Some(t@),
            None => spec_third_field(s@) is None,
        },
{
    let n = s.unicode_len();
    let a0 = skip_ws(s, 0);
    let e0 = skip_tok(s, a0);
    let a1 = skip_ws(s, e0);
    let e1 = skip_tok(s, a1);
    let a2 = skip_ws(s, e1);
    let e2 = skip_tok(s, a2);
    if a2 >= n {
        None
    } else {
        let t = s.substring_char(a2, e2);
        Some(String::from_str(t))
    }
}

/// True when `s` contains the SDK identifier "darwin" as a substring.
pub open spec fn spec_contains_darwin(s: Seq<char>) -> bool {
    exists|i: int| 0 <= i && i + 6 <= s.len() && #[trigger] s.subrange(i, i + 6) == "darwin"@
}

fn darwin_matches_at(s: &str, i: usize) -> (r: bool)
    requires
        i + 6 <= s@.len() <= usize::MAX,
    ensures
        r == (s@.subrange(i as int, i as int + 6) == "darwin"@),
{
    let pat = "darwin";
    proof {
        reveal_strlit("darwin");
    }
    let mut j: usize = 0;
    while j < 6
        invariant
            j <= 6,
            i + 6 <= s@.len() <= usize::MAX,
            pat@ == "darwin"@,
            pat@.len() == 6,
            forall|t: int| 0 <= t < j ==> s@[i + t] == pat@[t],
        decreases 6 - j,
    {
        if s.get_char(i + j) != pat.get_char(j) {
            proof {
                assert(s@.subrange(i as int, i as int + 6)[j as int] == s@[i + j]);
            }
            return false;
        }
        j = j + 1;
    }
    proof {
        assert(s@.subrange(i as int, i as int + 6) =~= pat@);
    }
    true
}

/// Substring search for the target-platform SDK identifier in a listing.
pub fn contains_darwin(s: &str) -> (r: bool)
    ensures
        r == spec_contains_darwin(s@),
{
    let n = s.unicode_len();
    if n < 6 {
        return false;
    }
    let mut i: usize = 0;
    while i <= n - 6
        invariant
            6 <= n,
            n == s@.len(),
            i <= n - 5,
            forall|k: int| 0 <= k < i ==> #[trigger] s@.subrange(k, k + 6) != "darwin"@,
        decreases n - i,
    {
        if darwin_matches_at(s, i) {
            return true;
        }
        i = i + 1;
    }
    false
}

/// The content with every trailing artifact character '%' removed.
pub open spec fn spec_strip_artifact(s: Seq<char>) -> Seq<char>
    decreases s.len(),
{
    if s.len() > 0 && s[s.len() - 1] == '%' {
        spec_strip_artifact(s.drop_last())
    } else {
        s
    }
}

/// Removes the stray trailing artifact characters sometimes left after the
/// structured payload of the manager's config file.
pub fn strip_trailing_artifact(s: &str) -> (r: String)
    ensures
        r@ == spec_strip_artifact(s@),
{
    let n = s.unicode_len();
    let mut k = n;
    proof {
        assert(s@.subrange(0, n as int) =~= s@);
    }
    while k > 0 && s.get_char(k - 1) == '%'
        invariant
            k <= n,
            n == s@.len(),
            spec_strip_artifact(s@) == spec_strip_artifact(s@.subrange(0, k as int)),
        decreases k,
    {
        proof {
            let cur = s@.subrange(0, k as int);
            assert(cur[k - 1] == '%');
            assert(cur.drop_last() =~= s@.subrange(0, k - 1));
        }
        k = k - 1;
    }
    let t = s.substring_char(0, k);
    proof {
        let cur = s@.subrange(0, k as int);
        if k > 0 {
            assert(cur[k - 1] == s@[k - 1]);
        }
    }
    String::from_str(t)
}

/// A single stray trailing artifact character never changes what the strip
/// yields: stripping `s` with one more '%' appended gives exactly the strip
/// of `s`.
pub proof fn lemma_strip_push_artifact(s: Seq<char>)
    ensures
        spec_strip_artifact(s.push('%')) == spec_strip_artifact(s),
{
    let t = s.push('%');
    assert(t.len() == s.len() + 1);
    assert(t[t.len() - 1] == '%');
    assert(t.drop_last() =~= s);
}

} // verus!
