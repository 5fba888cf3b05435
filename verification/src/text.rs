//! Character-level string helpers shared by the run, paging and debug logic.
//!
//! Strings are modelled by their `Seq<char>` views. Rust orders `str` values by their UTF-8
//! bytes, which is the same as ordering their characters by code point; [`seq_lt`] states that
//! order over characters.

use vstd::prelude::*;

verus! {

/// `p` is a prefix of `s`.
pub open spec fn has_prefix(s: Seq<char>, p: Seq<char>) -> bool {
    p.len() <= s.len() && s.subrange(0, p.len() as int) == p
}

/// What `str::strip_prefix` returns, over character sequences.
pub open spec fn strip_prefix_spec(s: Seq<char>, p: Seq<char>) -> Option<Seq<char>> {
    if has_prefix(s, p) {
        Some(s.subrange(p.len() as int, s.len() as int))
    } else {
        None
    }
}

/// `s.strip_prefix(p).unwrap_or(s)`.
pub open spec fn strip_prefix_or_self(s: Seq<char>, p: Seq<char>) -> Seq<char> {
    match strip_prefix_spec(s, p) {
        Some(t) => t,
        None => s,
    }
}

/// `needle` occurs in `s` starting at index `i`.
pub open spec fn occurs_at(s: Seq<char>, needle: Seq<char>, i: int) -> bool {
    0 <= i && i + needle.len() <= s.len() && s.subrange(i, i + needle.len()) == needle
}

/// What `str::contains` returns for a string needle.
pub open spec fn contains_spec(s: Seq<char>, needle: Seq<char>) -> bool {
    exists|i: int| occurs_at(s, needle, i)
}

/// What `str::split_once(c)` returns: the text before and after the first `c`.
pub open spec fn split_once_spec(s: Seq<char>, c: char) -> Option<(Seq<char>, Seq<char>)> {
    if exists|i: int| 0 <= i < s.len() && s[i] == c && forall|j: int| 0 <= j < i ==> s[j] != c {
        let i = choose|i: int| 0 <= i < s.len() && s[i] == c && forall|j: int| 0 <= j < i ==> s[j] != c;
        Some((s.subrange(0, i), s.subrange(i + 1, s.len() as int)))
    } else {
        None
    }
}

/// What `str::rsplit_once(c)` returns: the text before and after the last `c`.
pub open spec fn rsplit_once_spec(s: Seq<char>, c: char) -> Option<(Seq<char>, Seq<char>)> {
    if exists|i: int| 0 <= i < s.len() && s[i] == c && forall|j: int| i < j < s.len() ==> s[j] != c {
        let i = choose|i: int|
            0 <= i < s.len() && s[i] == c && forall|j: int| i < j < s.len() ==> s[j] != c;
        Some((s.subrange(0, i), s.subrange(i + 1, s.len() as int)))
    } else {
        None
    }
}

/// The text after the last `c` of `s`, or all of `s` without one
/// (`s.rsplit(c).next().unwrap()`).
pub open spec fn after_last_spec(s: Seq<char>, c: char) -> Seq<char> {
    match rsplit_once_spec(s, c) {
        Some((_, tail)) => tail,
        None => s,
    }
}

/// Unicode `White_Space`, the property that `char::is_whitespace` and `str::trim` use.
pub open spec fn is_whitespace(c: char) -> bool {
    let u = c as u32;
    (0x09 <= u <= 0x0d) || u == 0x20 || u == 0x85 || u == 0xa0 || u == 0x1680 || (0x2000 <= u
        <= 0x200a) || u == 0x2028 || u == 0x2029 || u == 0x202f || u == 0x205f || u == 0x3000
}

/// `s` without its leading white space.
pub open spec fn trim_start_spec(s: Seq<char>) -> Seq<char>
    decreases s.len(),
{
    if s.len() > 0 && is_whitespace(s[0]) {
        trim_start_spec(s.subrange(1, s.len() as int))
    } else {
        s
    }
}

/// `s` without its trailing white space.
pub open spec fn trim_end_spec(s: Seq<char>) -> Seq<char>
    decreases s.len(),
{
    if s.len() > 0 && is_whitespace(s[s.len() - 1]) {
        trim_end_spec(s.subrange(0, s.len() - 1))
    } else {
        s
    }
}

/// What `str::trim` returns.
pub open spec fn trim_spec(s: Seq<char>) -> Seq<char> {
    trim_end_spec(trim_start_spec(s))
}

/// Strict lexicographic order on character sequences (the order of `String` values).
pub open spec fn seq_lt(a: Seq<char>, b: Seq<char>) -> bool
    decreases a.len(),
{
    if a.len() == 0 {
        b.len() > 0
    } else if b.len() == 0 {
        false
    } else if a[0] != b[0] {
        (a[0] as int) < (b[0] as int)
    } else {
        seq_lt(a.subrange(1, a.len() as int), b.subrange(1, b.len() as int))
    }
}

/// Decimal digits of `n` (what `Display` prints for an unsigned integer).
pub open spec fn decimal(n: nat) -> Seq<char>
    decreases n,
{
    if n < 10 {
        seq![digit_char(n)]
    } else {
        decimal(n / 10).push(digit_char(n % 10))
    }
}

/// The character of a decimal digit.
pub open spec fn digit_char(d: nat) -> char {
    if d == 0 {
        '0'
    } else if d == 1 {
        '1'
    } else if d == 2 {
        '2'
    } else if d == 3 {
        '3'
    } else if d == 4 {
        '4'
    } else if d == 5 {
        '5'
    } else if d == 6 {
        '6'
    } else if d == 7 {
        '7'
    } else if d == 8 {
        '8'
    } else {
        '9'
    }
}

/// `seq_lt` never holds of a sequence and itself.
pub proof fn lemma_seq_lt_irreflexive(a: Seq<char>)
    ensures
        !seq_lt(a, a),
    decreases a.len(),
{
    if a.len() > 0 {
        lemma_seq_lt_irreflexive(a.subrange(1, a.len() as int));
    }
}

/// `seq_lt` is transitive.
pub proof fn lemma_seq_lt_transitive(a: Seq<char>, b: Seq<char>, c: Seq<char>)
    requires
        seq_lt(a, b),
        seq_lt(b, c),
    ensures
        seq_lt(a, c),
    decreases a.len(),
{
    if a.len() > 0 && b.len() > 0 && c.len() > 0 {
        if a[0] == b[0] && b[0] == c[0] {
            lemma_seq_lt_transitive(
                a.subrange(1, a.len() as int),
                b.subrange(1, b.len() as int),
                c.subrange(1, c.len() as int),
            );
        }
    }
}

/// Of two different sequences, one is `seq_lt` the other.
pub proof fn lemma_seq_lt_total(a: Seq<char>, b: Seq<char>)
    ensures
        a != b ==> (seq_lt(a, b) || seq_lt(b, a)),
        !(seq_lt(a, b) && seq_lt(b, a)),
    decreases a.len(),
{
    if a.len() > 0 && b.len() > 0 {
        let ta = a.subrange(1, a.len() as int);
        let tb = b.subrange(1, b.len() as int);
        lemma_seq_lt_total(ta, tb);
        if a[0] == b[0] {
            if ta == tb {
                assert(a =~= seq![a[0]] + ta);
                assert(b =~= seq![b[0]] + tb);
            }
            assert(seq_lt(a, b) == seq_lt(ta, tb));
            assert(seq_lt(b, a) == seq_lt(tb, ta));
        } else {
            assert((a[0] as int) != (b[0] as int));
        }
    } else if a.len() == 0 && b.len() == 0 {
        assert(a =~= b);
    }
}

proof fn lemma_first_index(s: Seq<char>, c: char, i: int)
    requires
        0 <= i < s.len(),
        s[i] == c,
        forall|j: int| 0 <= j < i ==> s[j] != c,
    ensures
        split_once_spec(s, c) == Some((s.subrange(0, i), s.subrange(i + 1, s.len() as int))),
{
    assert(exists|k: int| 0 <= k < s.len() && s[k] == c && forall|j: int| 0 <= j < k ==> s[j] != c);
    let k = choose|k: int| 0 <= k < s.len() && s[k] == c && forall|j: int| 0 <= j < k ==> s[j] != c;
    if k < i {
        assert(s[k] != c);
    }
    if k > i {
        assert(s[i] != c);
    }
}

proof fn lemma_last_index(s: Seq<char>, c: char, i: int)
    requires
        0 <= i < s.len(),
        s[i] == c,
        forall|j: int| i < j < s.len() ==> s[j] != c,
    ensures
        rsplit_once_spec(s, c) == Some((s.subrange(0, i), s.subrange(i + 1, s.len() as int))),
{
    assert(exists|k: int|
        0 <= k < s.len() && s[k] == c && forall|j: int| k < j < s.len() ==> s[j] != c);
    let k = choose|k: int|
        0 <= k < s.len() && s[k] == c && forall|j: int| k < j < s.len() ==> s[j] != c;
    if k < i {
        assert(s[i] != c);
    }
    if k > i {
        assert(s[k] != c);
    }
}

/// Whether `s` starts with `p` (character by character).
pub fn starts_with(s: &str, p: &str) -> (r: bool)
    ensures
        r == has_prefix(s@, p@),
{
    let n = s.unicode_len();
    let m = p.unicode_len();
    if m > n {
        return false;
    }
    let mut i: usize = 0;
    while i < m
        invariant
            m <= n,
            n == s@.len(),
            m == p@.len(),
            i <= m,
            forall|k: int| 0 <= k < i ==> s@[k] == p@[k],
        decreases m - i,
    {
        if s.get_char(i) != p.get_char(i) {
            assert(s@.subrange(0, m as int)[i as int] != p@[i as int]);
            return false;
        }
        i = i + 1;
    }
    assert(s@.subrange(0, m as int) =~= p@);
    true
}

/// Whether `needle` occurs in `s` at character index `i`.
fn occurs_at_exec(s: &str, needle: &str, i: usize) -> (r: bool)
    ensures
        r == occurs_at(s@, needle@, i as int),
{
    let n = s.unicode_len();
    let m = needle.unicode_len();
    if i > n || m > n - i {
        return false;
    }
    let mut k: usize = 0;
    while k < m
        invariant
            i + m <= n,
            n == s@.len(),
            m == needle@.len(),
            k <= m,
            forall|j: int| 0 <= j < k ==> s@[i + j] == needle@[j],
        decreases m - k,
    {
        if s.get_char(i + k) != needle.get_char(k) {
            assert(s@.subrange(i as int, i + m)[k as int] != needle@[k as int]);
            return false;
        }
        k = k + 1;
    }
    assert(s@.subrange(i as int, i + m) =~= needle@);
    true
}

/// `str::contains` with a string needle.
pub fn contains(s: &str, needle: &str) -> (r: bool)
    ensures
        r == contains_spec(s@, needle@),
{
    let n = s.unicode_len();
    let m = needle.unicode_len();
    if m > n {
        assert(forall|i: int| !occurs_at(s@, needle@, i));
        return false;
    }
    if m == 0 {
        assert(s@.subrange(0, 0) =~= needle@);
        assert(occurs_at(s@, needle@, 0));
        return true;
    }
    let mut i: usize = 0;
    while i <= n - m
        invariant
            1 <= m <= n,
            n == s@.len(),
            m == needle@.len(),
            i <= n - m + 1,
            forall|j: int| 0 <= j < i ==> !occurs_at(s@, needle@, j),
        decreases n - m + 1 - i,
    {
        if occurs_at_exec(s, needle, i) {
            return true;
        }
        i = i + 1;
    }
    assert(forall|j: int| !occurs_at(s@, needle@, j));
    false
}

/// An owned copy of `s` with `p` removed from its front, when `s` starts with `p`.
pub fn strip_prefix(s: &str, p: &str) -> (r: Option<String>)
    ensures
        r matches Some(t) ==> strip_prefix_spec(s@, p@) == Some(t@),
        r is None <==> strip_prefix_spec(s@, p@) is None,
{
    if starts_with(s, p) {
        let n = s.unicode_len();
        let m = p.unicode_len();
        Some(String::from_str(s.substring_char(m, n)))
    } else {
        None
    }
}

/// `s.strip_prefix(p).unwrap_or(s).to_string()`.
pub fn strip_prefix_or_keep(s: &str, p: &str) -> (r: String)
    ensures
        r@ == strip_prefix_or_self(s@, p@),
{
    match strip_prefix(s, p) {
        Some(t) => t,
        None => String::from_str(s),
    }
}

/// `str::split_once(c)`, returning owned halves.
pub fn split_once(s: &str, c: char) -> (r: Option<(String, String)>)
    ensures
        r matches Some((a, b)) ==> split_once_spec(s@, c) == Some((a@, b@)),
        r is None <==> split_once_spec(s@, c) is None,
{
    let n = s.unicode_len();
    let mut i: usize = 0;
    while i < n
        invariant
            n == s@.len(),
            i <= n,
            forall|j: int| 0 <= j < i ==> s@[j] != c,
        decreases n - i,
    {
        if s.get_char(i) == c {
            proof {
                lemma_first_index(s@, c, i as int);
            }
            let a = String::from_str(s.substring_char(0, i));
            let b = String::from_str(s.substring_char(i + 1, n));
            return Some((a, b));
        }
        i = i + 1;
    }
    None
}

/// The text after the last `c` in `s`, or all of `s` when `c` does not occur.
pub fn after_last(s: &str, c: char) -> (r: String)
    ensures
        r@ == after_last_spec(s@, c),
{
    let n = s.unicode_len();
    let mut i: usize = n;
    while i > 0
        invariant
            n == s@.len(),
            i <= n,
            forall|j: int| i <= j < n ==> s@[j] != c,
        decreases i,
    {
        if s.get_char(i - 1) == c {
            proof {
                lemma_last_index(s@, c, (i - 1) as int);
            }
            return String::from_str(s.substring_char(i, n));
        }
        i = i - 1;
    }
    String::from_str(s)
}

/// Whether `c` is Unicode white space.
pub fn char_is_whitespace(c: char) -> (r: bool)
    ensures
        r == is_whitespace(c),
{
    let u = c as u32;
    (0x09 <= u && u <= 0x0d) || u == 0x20 || u == 0x85 || u == 0xa0 || u == 0x1680 || (0x2000 <= u
        && u <= 0x200a) || u == 0x2028 || u == 0x2029 || u == 0x202f || u == 0x205f || u == 0x3000
}

proof fn lemma_trim_start_skip(s: Seq<char>, i: int)
    requires
        0 <= i <= s.len(),
        forall|k: int| 0 <= k < i ==> is_whitespace(s[k]),
    ensures
        trim_start_spec(s) == trim_start_spec(s.subrange(i, s.len() as int)),
    decreases i,
{
    if i > 0 {
        let t = s.subrange(1, s.len() as int);
        lemma_trim_start_skip(t, i - 1);
        assert(t.subrange(i - 1, t.len() as int) =~= s.subrange(i, s.len() as int));
    } else {
        assert(s.subrange(0, s.len() as int) =~= s);
    }
}

proof fn lemma_trim_end_drop(s: Seq<char>, j: int)
    requires
        0 <= j <= s.len(),
        forall|k: int| j <= k < s.len() ==> is_whitespace(s[k]),
    ensures
        trim_end_spec(s) == trim_end_spec(s.subrange(0, j)),
    decreases s.len() - j,
{
    if j < s.len() {
        let t = s.subrange(0, s.len() - 1);
        lemma_trim_end_drop(t, j);
        assert(t.subrange(0, j) =~= s.subrange(0, j));
    } else {
        assert(s.subrange(0, j) =~= s);
    }
}

/// `str::trim`, returning an owned string.
pub fn trim(s: &str) -> (r: String)
    ensures
        r@ == trim_spec(s@),
{
    let n = s.unicode_len();
    let mut a: usize = 0;
    while a < n && char_is_whitespace(s.get_char(a))
        invariant
            n == s@.len(),
            a <= n,
            forall|k: int| 0 <= k < a ==> is_whitespace(s@[k]),
        decreases n - a,
    {
        a = a + 1;
    }
    proof {
        lemma_trim_start_skip(s@, a as int);
    }
    let ghost mid = s@.subrange(a as int, n as int);
    assert(trim_start_spec(mid) == mid);
    let mut b: usize = n;
    while b > a && char_is_whitespace(s.get_char(b - 1))
        invariant
            n == s@.len(),
            a <= b <= n,
            mid == s@.subrange(a as int, n as int),
            forall|k: int| b <= k < n ==> is_whitespace(s@[k]),
        decreases b,
    {
        b = b - 1;
    }
    proof {
        assert forall|k: int| (b - a) <= k < mid.len() implies is_whitespace(mid[k]) by {
            assert(mid[k] == s@[a + k]);
        }
        lemma_trim_end_drop(mid, (b - a) as int);
        assert(mid.subrange(0, (b - a) as int) =~= s@.subrange(a as int, b as int));
        let t = s@.subrange(a as int, b as int);
        if t.len() > 0 {
            assert(t[t.len() - 1] == s@[b - 1]);
        }
        assert(trim_end_spec(t) == t);
    }
    String::from_str(s.substring_char(a, b))
}

/// Strict lexicographic comparison of two strings (`a < b` on `String`).
pub fn str_lt(a: &str, b: &str) -> (r: bool)
    ensures
        r == seq_lt(a@, b@),
{
    let n = a.unicode_len();
    let m = b.unicode_len();
    let mut i: usize = 0;
    assert(a@.subrange(0, n as int) =~= a@);
    assert(b@.subrange(0, m as int) =~= b@);
    while i < n && i < m
        invariant
            n == a@.len(),
            m == b@.len(),
            i <= n,
            i <= m,
            forall|k: int| 0 <= k < i ==> a@[k] == b@[k],
            seq_lt(a@, b@) == seq_lt(
                a@.subrange(i as int, n as int),
                b@.subrange(i as int, m as int),
            ),
        decreases n - i,
    {
        let ca = a.get_char(i);
        let cb = b.get_char(i);
        let ghost sa = a@.subrange(i as int, n as int);
        let ghost sb = b@.subrange(i as int, m as int);
        assert(sa[0] == ca && sb[0] == cb);
        if ca != cb {
            return (ca as u32) < (cb as u32);
        }
        assert(sa.subrange(1, sa.len() as int) =~= a@.subrange(i + 1, n as int));
        assert(sb.subrange(1, sb.len() as int) =~= b@.subrange(i + 1, m as int));
        i = i + 1;
    }
    let ghost sa = a@.subrange(i as int, n as int);
    let ghost sb = b@.subrange(i as int, m as int);
    assert(i == n ==> sa.len() == 0);
    assert(i == m ==> sb.len() == 0);
    i == n && i < m
}

/// The one-character string of a decimal digit.
fn digit_str(d: usize) -> (r: &'static str)
    requires
        d < 10,
    ensures
        r@ == seq![digit_char(d as nat)],
{
    if d == 0 {
        proof {
            reveal_strlit("0");
        }
        "0"
    } else if d == 1 {
        proof {
            reveal_strlit("1");
        }
        "1"
    } else if d == 2 {
        proof {
            reveal_strlit("2");
        }
        "2"
    } else if d == 3 {
        proof {
            reveal_strlit("3");
        }
        "3"
    } else if d == 4 {
        proof {
            reveal_strlit("4");
        }
        "4"
    } else if d == 5 {
        proof {
            reveal_strlit("5");
        }
        "5"
    } else if d == 6 {
        proof {
            reveal_strlit("6");
        }
        "6"
    } else if d == 7 {
        proof {
            reveal_strlit("7");
        }
        "7"
    } else if d == 8 {
        proof {
            reveal_strlit("8");
        }
        "8"
    } else {
        proof {
            reveal_strlit("9");
        }
        "9"
    }
}

/// The decimal text of `n` (what `n.to_string()` gives).
pub fn usize_to_decimal(n: usize) -> (r: String)
    ensures
        r@ == decimal(n as nat),
    decreases n,
{
    if n < 10 {
        String::from_str(digit_str(n))
    } else {
        let head = usize_to_decimal(n / 10);
        let r = head.concat(digit_str(n % 10));
        assert(r@ =~= decimal(n as nat));
        r
    }
}

/// `a` followed by `b`, as a new string.
pub fn concat2(a: &str, b: &str) -> (r: String)
    ensures
        r@ == a@ + b@,
{
    String::from_str(a).concat(b)
}

/// `a`, `b` and `c` joined, as a new string.
pub fn concat3(a: &str, b: &str, c: &str) -> (r: String)
    ensures
        r@ == a@ + b@ + c@,
{
    String::from_str(a).concat(b).concat(c)
}

/// `s` without leading and trailing `c` characters (`str::trim_matches(c)`).
pub open spec fn trim_char_spec(s: Seq<char>, c: char) -> Seq<char> {
    trim_char_end(trim_char_start(s, c), c)
}

/// `s` without leading `c` characters.
pub open spec fn trim_char_start(s: Seq<char>, c: char) -> Seq<char>
    decreases s.len(),
{
    if s.len() > 0 && s[0] == c {
        trim_char_start(s.subrange(1, s.len() as int), c)
    } else {
        s
    }
}

/// `s` without trailing `c` characters.
pub open spec fn trim_char_end(s: Seq<char>, c: char) -> Seq<char>
    decreases s.len(),
{
    if s.len() > 0 && s[s.len() - 1] == c {
        trim_char_end(s.subrange(0, s.len() - 1), c)
    } else {
        s
    }
}

proof fn lemma_trim_char_start_skip(s: Seq<char>, c: char, i: int)
    requires
        0 <= i <= s.len(),
        forall|k: int| 0 <= k < i ==> s[k] == c,
    ensures
        trim_char_start(s, c) == trim_char_start(s.subrange(i, s.len() as int), c),
    decreases i,
{
    if i > 0 {
        let t = s.subrange(1, s.len() as int);
        lemma_trim_char_start_skip(t, c, i - 1);
        assert(t.subrange(i - 1, t.len() as int) =~= s.subrange(i, s.len() as int));
    } else {
        assert(s.subrange(0, s.len() as int) =~= s);
    }
}

proof fn lemma_trim_char_end_drop(s: Seq<char>, c: char, j: int)
    requires
        0 <= j <= s.len(),
        forall|k: int| j <= k < s.len() ==> s[k] == c,
    ensures
        trim_char_end(s, c) == trim_char_end(s.subrange(0, j), c),
    decreases s.len() - j,
{
    if j < s.len() {
        let t = s.subrange(0, s.len() - 1);
        lemma_trim_char_end_drop(t, c, j);
        assert(t.subrange(0, j) =~= s.subrange(0, j));
    } else {
        assert(s.subrange(0, j) =~= s);
    }
}

/// `str::trim_matches(c)`, returning an owned string.
pub fn trim_char(s: &str, c: char) -> (r: String)
    ensures
        r@ == trim_char_spec(s@, c),
{
    let n = s.unicode_len();
    let mut a: usize = 0;
    while a < n && s.get_char(a) == c
        invariant
            n == s@.len(),
            a <= n,
            forall|k: int| 0 <= k < a ==> s@[k] == c,
        decreases n - a,
    {
        a = a + 1;
    }
    proof {
        lemma_trim_char_start_skip(s@, c, a as int);
    }
    let ghost mid = s@.subrange(a as int, n as int);
    assert(trim_char_start(mid, c) == mid);
    let mut b: usize = n;
    while b > a && s.get_char(b - 1) == c
        invariant
            n == s@.len(),
            a <= b <= n,
            mid == s@.subrange(a as int, n as int),
            forall|k: int| b <= k < n ==> s@[k] == c,
        decreases b,
    {
        b = b - 1;
    }
    proof {
        assert forall|k: int| (b - a) <= k < mid.len() implies mid[k] == c by {
            assert(mid[k] == s@[a + k]);
        }
        lemma_trim_char_end_drop(mid, c, (b - a) as int);
        assert(mid.subrange(0, (b - a) as int) =~= s@.subrange(a as int, b as int));
        let t = s@.subrange(a as int, b as int);
        if t.len() > 0 {
            assert(t[t.len() - 1] == s@[b - 1]);
        }
        assert(trim_char_end(t, c) == t);
    }
    String::from_str(s.substring_char(a, b))
}

/// Whether two strings are equal.
pub fn str_eq(a: &str, b: &str) -> (r: bool)
    ensures
        r == (a@ == b@),
{
    let n = a.unicode_len();
    if n != b.unicode_len() {
        return false;
    }
    assert(a@.subrange(0, n as int) =~= a@);
    starts_with(a, b)
}



/// The character sequences of a sequence of strings.
pub open spec fn views(v: Seq<String>) -> Seq<Seq<char>> {
    v.map_values(|s: String| s@)
}

/// Some `String` whose text is the literal `s`.
pub open spec fn str_string(s: &str) -> String {
    choose|t: String| t@ == s@
}

} // verus!
