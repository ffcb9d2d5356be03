use vstd::prelude::*;

use vstd::string::StringExecFns;

use crate::text::{seq_starts_with, str_starts_with};
use crate::values::COOKIE_NAME;

verus! {

/// The whitespace that is stripped around a cookie pair: ASCII spaces,
/// tabs and line breaks.
pub open spec fn is_cookie_space(c: char) -> bool {
    c == ' ' || c == '\t' || c == '\n' || c == '\r'
}

fn is_cookie_space_char(c: char) -> (r: bool)
    ensures
        r == is_cookie_space(c),
{
    c == ' ' || c == '\t' || c == '\n' || c == '\r'
}

/// Index of the first semicolon, or the length when there is none.
pub open spec fn find_semi(s: Seq<char>) -> int
    decreases s.len(),
{
    if s.len() == 0 {
        0
    } else if s[0] == ';' {
        0
    } else {
        1 + find_semi(s.skip(1))
    }
}

/// `find_semi` is exactly the first semicolon position.
proof fn lemma_find_semi_unique(s: Seq<char>, k: int)
    requires
        0 <= k <= s.len(),
        forall|i: int| 0 <= i < k ==> s[i] != ';',
        k < s.len() ==> s[k] == ';',
    ensures
        find_semi(s) == k,
    decreases s.len(),
{
    if s.len() == 0 {
    } else if s[0] == ';' {
        assert(k == 0);
    } else {
        assert(k >= 1);
        let t = s.skip(1);
        assert(forall|i: int| 0 <= i < t.len() ==> t[i] == s[i + 1]);
        lemma_find_semi_unique(t, k - 1);
    }
}

/// The text with leading cookie whitespace removed.
pub open spec fn trim_left(s: Seq<char>) -> Seq<char>
    decreases s.len(),
{
    if s.len() > 0 && is_cookie_space(s[0]) {
        trim_left(s.skip(1))
    } else {
        s
    }
}

/// The text with trailing cookie whitespace removed.
pub open spec fn trim_right(s: Seq<char>) -> Seq<char>
    decreases s.len(),
{
    if s.len() > 0 && is_cookie_space(s[s.len() - 1]) {
        trim_right(s.take(s.len() - 1))
    } else {
        s
    }
}

/// The text with cookie whitespace removed on both sides.
pub open spec fn trim_spaces(s: Seq<char>) -> Seq<char> {
    trim_right(trim_left(s))
}

proof fn lemma_trim_left_skip(s: Seq<char>, a: int)
    requires
        0 <= a <= s.len(),
        forall|j: int| 0 <= j < a ==> is_cookie_space(s[j]),
        a < s.len() ==> !is_cookie_space(s[a]),
    ensures
        trim_left(s) == s.skip(a),
    decreases a,
{
    if a == 0 {
        assert(s.skip(0) =~= s);
    } else {
        let t = s.skip(1);
        assert(forall|j: int| 0 <= j < t.len() ==> t[j] == s[j + 1]);
        lemma_trim_left_skip(t, a - 1);
        assert(t.skip(a - 1) =~= s.skip(a));
    }
}

proof fn lemma_trim_right_take(s: Seq<char>, b: int)
    requires
        0 <= b <= s.len(),
        forall|j: int| b <= j < s.len() ==> is_cookie_space(s[j]),
        b > 0 ==> !is_cookie_space(s[b - 1]),
    ensures
        trim_right(s) == s.take(b),
    decreases s.len(),
{
    if b == s.len() {
        assert(s.take(b) =~= s);
    } else {
        let t = s.take(s.len() - 1);
        assert(forall|j: int| 0 <= j < t.len() ==> t[j] == s[j]);
        lemma_trim_right_take(t, b);
        assert(t.take(b) =~= s.take(b));
    }
}

/// Strips cookie whitespace from both ends.
fn trim_cookie_space(s: &str) -> (r: String)
    ensures
        r@ == trim_spaces(s@),
{
    let n = s.unicode_len();
    let mut a: usize = 0;
    while a < n && is_cookie_space_char(s.get_char(a))
        invariant
            a <= n,
            n == s@.len(),
            forall|j: int| 0 <= j < a ==> is_cookie_space(s@[j]),
        decreases n - a,
    {
        a = a + 1;
    }
    let mut b: usize = n;
    while b > a && is_cookie_space_char(s.get_char(b - 1))
        invariant
            a <= b <= n,
            n == s@.len(),
            forall|j: int| b <= j < n ==> is_cookie_space(s@[j]),
            a < n ==> !is_cookie_space(s@[a as int]),
        decreases b,
    {
        b = b - 1;
    }
    let t = s.substring_char(a, b);
    proof {
        lemma_trim_left_skip(s@, a as int);
        let u = s@.skip(a as int);
        assert(forall|j: int| 0 <= j < u.len() ==> u[j] == s@[j + a]);
        lemma_trim_right_take(u, b - a);
        assert(u.take(b - a) =~= s@.subrange(a as int, b as int));
    }
    String::from_str(t)
}

/// The cookie name followed by the equals sign.
pub open spec fn cookie_prefix() -> Seq<char> {
    COOKIE_NAME@ + "="@
}

/// The credential carried by a cookie header: the first `;`-separated
/// pair that, once trimmed, starts with the cookie name and `=`; the value
/// is everything after that prefix.
pub open spec fn spec_extract_token(s: Seq<char>) -> Option<Seq<char>>
    decreases s.len(),
{
    let k = find_semi(s);
    let seg = trim_spaces(s.take(k));
    if seq_starts_with(seg, cookie_prefix()) {
        Some(seg.skip(cookie_prefix().len() as int))
    } else if 0 <= k && k < s.len() {
        spec_extract_token(s.skip(k + 1))
    } else {
        None
    }
}

/// Finds the access credential among the cookies of a `cookie` header.
pub fn extract_token_from_cookie(cookie_str: &str) -> (r: Option<String>)
    ensures
        match r {
            Some(t) => spec_extract_token(cookie_str@) == Some(t@),
            None => spec_extract_token(cookie_str@) is None,
        },
    decreases cookie_str@.len(),
{
    let n = cookie_str.unicode_len();
    let mut k: usize = 0;
    while k < n && cookie_str.get_char(k) != ';'
        invariant
            k <= n,
            n == cookie_str@.len(),
            forall|j: int| 0 <= j < k ==> cookie_str@[j] != ';',
        decreases n - k,
    {
        k = k + 1;
    }
    proof {
        lemma_find_semi_unique(cookie_str@, k as int);
    }
    let seg = cookie_str.substring_char(0, k);
    proof {
        assert(seg@ =~= cookie_str@.take(k as int));
    }
    let trimmed = trim_cookie_space(seg);
    let mut prefix = String::from_str(COOKIE_NAME);
    prefix.append("=");
    if str_starts_with(trimmed.as_str(), prefix.as_str()) {
        let plen = prefix.unicode_len();
        let tlen = trimmed.unicode_len();
        let value = trimmed.as_str().substring_char(plen, tlen);
        proof {
            assert(value@ =~= trim_spaces(cookie_str@.take(k as int)).skip(
                cookie_prefix().len() as int,
            ));
        }
        Some(String::from_str(value))
    } else if k < n {
        let rest = cookie_str.substring_char(k + 1, n);
        proof {
            assert(rest@ =~= cookie_str@.skip(k + 1));
        }
        extract_token_from_cookie(rest)
    } else {
        None
    }
}

} // verus!
