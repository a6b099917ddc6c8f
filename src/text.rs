//! Text helpers over character sequences: trimming, searching, and decimal
//! numbers.
use vstd::prelude::*;

verus! {

/// Unicode `White_Space`, the set that Rust's `char::is_whitespace` tests.
pub open spec fn is_ws(c: char) -> bool {
    ||| c == '\t' || c == '\n' || c == '\u{B}' || c == '\u{C}' || c == '\r' || c == ' '
    ||| c == '\u{85}' || c == '\u{A0}' || c == '\u{1680}'
    ||| ('\u{2000}' <= c && c <= '\u{200A}')
    ||| c == '\u{2028}' || c == '\u{2029}' || c == '\u{202F}' || c == '\u{205F}' || c == '\u{3000}'
}

/// Which characters a trim removes.
#[derive(Clone, Copy, Debug, PartialEq, Eq, Structural)]
pub enum CharClass {
    Whitespace,
    Exactly(char),
}

pub open spec fn in_class(c: char, cls: CharClass) -> bool {
    match cls {
        CharClass::Whitespace => is_ws(c),
        CharClass::Exactly(x) => c == x,
    }
}

/// First index at or after `k` whose character is outside `cls`, or the length.
pub open spec fn skip_front(s: Seq<char>, k: int, cls: CharClass) -> int
    decreases s.len() - k,
{
    if k < 0 || k >= s.len() {
        s.len() as int
    } else if in_class(s[k], cls) {
        skip_front(s, k + 1, cls)
    } else {
        k
    }
}

/// Moving back from `k` while the character before is in `cls`, never
/// below `lo`.
pub open spec fn skip_back(s: Seq<char>, k: int, lo: int, cls: CharClass) -> int
    decreases k - lo,
{
    if k <= lo || k > s.len() {
        k
    } else if in_class(s[k - 1], cls) {
        skip_back(s, k - 1, lo, cls)
    } else {
        k
    }
}

/// `s` without the characters of `cls` at either end.
pub open spec fn trim_both(s: Seq<char>, cls: CharClass) -> Seq<char> {
    let a = skip_front(s, 0, cls);
    s.subrange(a, skip_back(s, s.len() as int, a, cls))
}

/// `s` without the characters of `cls` at its end.
pub open spec fn trim_end(s: Seq<char>, cls: CharClass) -> Seq<char> {
    s.subrange(0, skip_back(s, s.len() as int, 0, cls))
}

/// `s` without leading and trailing whitespace.
pub open spec fn trimmed(s: Seq<char>) -> Seq<char> {
    trim_both(s, CharClass::Whitespace)
}

proof fn lemma_skip_front(s: Seq<char>, k: int, cls: CharClass)
    requires
        0 <= k <= s.len(),
    ensures
        k <= skip_front(s, k, cls) <= s.len(),
    decreases s.len() - k,
{
    if k < s.len() && in_class(s[k], cls) {
        lemma_skip_front(s, k + 1, cls);
    }
}

proof fn lemma_skip_back(s: Seq<char>, k: int, lo: int, cls: CharClass)
    requires
        0 <= lo <= k <= s.len(),
    ensures
        lo <= skip_back(s, k, lo, cls) <= k,
    decreases k - lo,
{
    if k > lo && in_class(s[k - 1], cls) {
        lemma_skip_back(s, k - 1, lo, cls);
    }
}

fn char_in_class(c: char, cls: CharClass) -> (r: bool)
    ensures
        r == in_class(c, cls),
{
    match cls {
        CharClass::Whitespace => {
            c == '\t' || c == '\n' || c == '\u{B}' || c == '\u{C}' || c == '\r' || c == ' ' || c
                == '\u{85}' || c == '\u{A0}' || c == '\u{1680}' || ('\u{2000}' <= c && c
                <= '\u{200A}') || c == '\u{2028}' || c == '\u{2029}' || c == '\u{202F}' || c
                == '\u{205F}' || c == '\u{3000}'
        },
        CharClass::Exactly(x) => c == x,
    }
}

/// The part of `s` left after removing characters of `cls` from the front
/// (when `front`) and from the back.
fn strip(s: &str, cls: CharClass, front: bool) -> (r: String)
    ensures
        front ==> r@ == trim_both(s@, cls),
        !front ==> r@ == trim_end(s@, cls),
{
    let n = s.unicode_len();
    let mut a: usize = 0;
    if front {
        while a < n && char_in_class(s.get_char(a), cls)
            invariant
                a <= n,
                n == s@.len(),
                skip_front(s@, 0, cls) == skip_front(s@, a as int, cls),
            decreases n - a,
        {
            a = a + 1;
        }
    }
    let mut b: usize = n;
    while b > a && char_in_class(s.get_char(b - 1), cls)
        invariant
            a <= b <= n,
            n == s@.len(),
            skip_back(s@, n as int, a as int, cls) == skip_back(s@, b as int, a as int, cls),
        decreases b - a,
    {
        b = b - 1;
    }
    String::from_str(s.substring_char(a, b))
}

/// `s` without leading and trailing whitespace.
pub fn trim(s: &str) -> (r: String)
    ensures
        r@ == trimmed(s@),
{
    strip(s, CharClass::Whitespace, true)
}

/// Removes the characters of `cls` at both ends of `s`.
pub fn trim_matches(s: &str, cls: CharClass) -> (r: String)
    ensures
        r@ == trim_both(s@, cls),
{
    strip(s, cls, true)
}

/// Removes the characters of `cls` at the end of `s`.
pub fn trim_end_matches(s: &str, cls: CharClass) -> (r: String)
    ensures
        r@ == trim_end(s@, cls),
{
    strip(s, cls, false)
}

/// First index at or after `k` holding `c`, or -1.
pub open spec fn index_of_from(s: Seq<char>, k: int, c: char) -> int
    decreases s.len() - k,
{
    if k < 0 || k >= s.len() {
        -1
    } else if s[k] == c {
        k
    } else {
        index_of_from(s, k + 1, c)
    }
}

/// Last index before `k` holding `c`, or -1.
pub open spec fn last_index_before(s: Seq<char>, k: int, c: char) -> int
    decreases k,
{
    if k <= 0 || k > s.len() {
        -1
    } else if s[k - 1] == c {
        k - 1
    } else {
        last_index_before(s, k - 1, c)
    }
}

pub proof fn lemma_index_of_from(s: Seq<char>, k: int, c: char)
    requires
        0 <= k <= s.len(),
    ensures
        index_of_from(s, k, c) == -1 || (k <= index_of_from(s, k, c) < s.len() && s[index_of_from(s, k, c)] == c),
    decreases s.len() - k,
{
    if k < s.len() && s[k] != c {
        lemma_index_of_from(s, k + 1, c);
    }
}

pub proof fn lemma_last_index_before(s: Seq<char>, k: int, c: char)
    requires
        0 <= k <= s.len(),
    ensures
        last_index_before(s, k, c) == -1 || (0 <= last_index_before(s, k, c) < k && s[last_index_before(s, k, c)] == c),
    decreases k,
{
    if k > 0 && s[k - 1] != c {
        lemma_last_index_before(s, k - 1, c);
    }
}

/// Index of the first `c` in `s`.
pub fn find_char(s: &str, c: char) -> (r: Option<usize>)
    ensures
        match r {
            Some(i) => i == index_of_from(s@, 0, c),
            None => index_of_from(s@, 0, c) == -1,
        },
        r is Some ==> r->0 < s@.len(),
{
    proof {
        lemma_index_of_from(s@, 0, c);
    }
    let n = s.unicode_len();
    let mut i: usize = 0;
    while i < n
        invariant
            i <= n,
            n == s@.len(),
            index_of_from(s@, 0, c) == index_of_from(s@, i as int, c),
        decreases n - i,
    {
        if s.get_char(i) == c {
            return Some(i);
        }
        i = i + 1;
    }
    None
}

/// Index of the last `c` in `s`.
pub fn rfind_char(s: &str, c: char) -> (r: Option<usize>)
    ensures
        match r {
            Some(i) => i == last_index_before(s@, s@.len() as int, c),
            None => last_index_before(s@, s@.len() as int, c) == -1,
        },
        r is Some ==> r->0 < s@.len(),
{
    proof {
        lemma_last_index_before(s@, s@.len() as int, c);
    }
    let n = s.unicode_len();
    let mut i: usize = n;
    while i > 0
        invariant
            i <= n,
            n == s@.len(),
            last_index_before(s@, n as int, c) == last_index_before(s@, i as int, c),
        decreases i,
    {
        if s.get_char(i - 1) == c {
            return Some(i - 1);
        }
        i = i - 1;
    }
    None
}

/// Whether `pat` occurs in `s` as a run of consecutive characters.
pub open spec fn contains_text(s: Seq<char>, pat: Seq<char>) -> bool {
    exists|i: int| 0 <= i && i + pat.len() <= s.len() && #[trigger] s.subrange(i, i + pat.len()) == pat
}

/// Whether `pat` occurs in `s`.
pub fn contains(s: &str, pat: &str) -> (r: bool)
    ensures
        r == contains_text(s@, pat@),
{
    let n = s.unicode_len();
    let m = pat.unicode_len();
    if m > n {
        return false;
    }
    if m == 0 {
        assert(s@.subrange(0int, 0int + pat@.len()) =~= pat@);
        return true;
    }
    let wanted = String::from_str(pat);
    let mut i: usize = 0;
    while i <= n - m
        invariant
            m <= n,
            n == s@.len(),
            m == pat@.len(),
            wanted@ == pat@,
            1 <= m,
            i <= n - m + 1,
            forall|j: int| 0 <= j < i ==> #[trigger] s@.subrange(j, j + m) != pat@,
        decreases n - m + 1 - i,
    {
        let here = String::from_str(s.substring_char(i, i + m));
        if here == wanted {
            return true;
        }
        i = i + 1;
    }
    assert forall|j: int| 0 <= j && j + pat@.len() <= s@.len() implies #[trigger] s@.subrange(
        j,
        j + pat@.len(),
    ) != pat@ by {
        assert(j < i);
    }
    false
}

pub open spec fn is_digit(c: char) -> bool {
    '0' <= c && c <= '9'
}

pub open spec fn digit_value(c: char) -> int {
    c as int - '0' as int
}

/// The value of a run of decimal digits.
pub open spec fn decimal_value(d: Seq<char>) -> int
    decreases d.len(),
{
    if d.len() == 0 {
        0
    } else {
        decimal_value(d.drop_last()) * 10 + digit_value(d.last())
    }
}

/// The digits after an optional leading `+`.
pub open spec fn unsigned_digits(s: Seq<char>) -> Seq<char> {
    if s.len() > 0 && s[0] == '+' {
        s.drop_first()
    } else {
        s
    }
}

/// Whether Rust reads `s` as a `u32`: an optional `+`, then at least one
/// decimal digit, of value at most `u32::MAX`.
pub open spec fn is_u32_text(s: Seq<char>) -> bool {
    let d = unsigned_digits(s);
    &&& d.len() > 0
    &&& forall|i: int| 0 <= i < d.len() ==> is_digit(#[trigger] d[i])
    &&& decimal_value(d) <= u32::MAX
}

/// Whether `s` reads as a `u32`.
pub fn parses_as_u32(s: &str) -> (r: bool)
    ensures
        r == is_u32_text(s@),
{
    let n = s.unicode_len();
    let mut i: usize = 0;
    if n > 0 && s.get_char(0) == '+' {
        i = 1;
    }
    let ghost start = i as int;
    let ghost d = unsigned_digits(s@);
    assert(d =~= s@.subrange(start, n as int));
    if i == n {
        return false;
    }
    let limit: u64 = 0x1_0000_0000;
    let mut acc: u64 = 0;
    while i < n
        invariant
            0 <= start <= i <= n,
            n == s@.len(),
            d == s@.subrange(start, n as int),
            d == unsigned_digits(s@),
            limit == u32::MAX + 1,
            forall|j: int| start <= j < i ==> is_digit(#[trigger] s@[j]),
            acc == if decimal_value(s@.subrange(start, i as int)) < limit {
                decimal_value(s@.subrange(start, i as int))
            } else {
                limit as int
            },
            decimal_value(s@.subrange(start, i as int)) >= 0,
        decreases n - i,
    {
        let c = s.get_char(i);
        if !('0' <= c && c <= '9') {
            assert(d[i - start] == s@[i as int]);
            assert(!is_digit(d[i - start]));
            return false;
        }
        let dv = (c as u32 - '0' as u32) as u64;
        let ghost prev = decimal_value(s@.subrange(start, i as int));
        assert(s@.subrange(start, i as int + 1).drop_last() =~= s@.subrange(start, i as int));
        assert(decimal_value(s@.subrange(start, i as int + 1)) == prev * 10 + dv);
        assert(prev * 10 + dv >= prev) by (nonlinear_arith)
            requires
                prev >= 0,
                dv >= 0,
        ;
        acc = if acc >= limit {
            limit
        } else {
            let next = acc * 10 + dv;
            if next >= limit {
                limit
            } else {
                next
            }
        };
        i = i + 1;
    }
    assert(s@.subrange(start, i as int) =~= d);
    acc < limit
}

/// The decimal digits of `n`, without leading zeros.
pub open spec fn decimal_text(n: nat) -> Seq<char>
    decreases n,
{
    if n < 10 {
        seq!["0123456789"@[n as int]]
    } else {
        decimal_text(n / 10).push("0123456789"@[(n % 10) as int])
    }
}

/// `n` written in decimal.
pub fn u32_to_text(n: u32) -> (r: String)
    ensures
        r@ == decimal_text(n as nat),
    decreases n,
{
    proof {
        reveal_strlit("0123456789");
    }
    if n < 10 {
        let d = n as usize;
        let r = String::from_str("0123456789".substring_char(d, d + 1));
        assert(r@ =~= seq!["0123456789"@[d as int]]);
        r
    } else {
        let mut s = u32_to_text(n / 10);
        let d = (n % 10) as usize;
        s.append("0123456789".substring_char(d, d + 1));
        assert("0123456789"@.subrange(d as int, d as int + 1) =~= seq!["0123456789"@[d as int]]);
        s
    }
}

} // verus!
