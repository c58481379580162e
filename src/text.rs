use vstd::prelude::*;

verus! {

/// The index of the first `c` in `s` at or after `start`, or the length of
/// `s` when there is none.
pub open spec fn first_index_from(s: Seq<char>, c: char, start: int) -> int
    decreases s.len() - start,
{
    if start < 0 || start >= s.len() {
        s.len() as int
    } else if s[start] == c {
        start
    } else {
        first_index_from(s, c, start + 1)
    }
}

/// `p` occurs in `s` as a contiguous run of characters.
pub open spec fn contains_seq(s: Seq<char>, p: Seq<char>) -> bool {
    exists|i: int| 0 <= i && i + p.len() <= s.len() && #[trigger] s.subrange(i, i + p.len()) == p
}

/// The text before the first `c` of `s` (all of `s` when there is none).
pub open spec fn before_first(s: Seq<char>, c: char) -> Seq<char> {
    s.subrange(0, first_index_from(s, c, 0))
}

/// The position of the first `c` in `s` at or after `start`, or `n`, the
/// number of characters of `s`.
pub fn find_char_from(s: &str, n: usize, c: char, start: usize) -> (r: usize)
    requires
        n == s@.len(),
        start <= n,
    ensures
        r == first_index_from(s@, c, start as int),
        start <= r <= n,
        forall|k: int| start <= k < r ==> s@[k] != c,
        r < n ==> s@[r as int] == c,
{
    let mut i = start;
    while i < n
        invariant
            n == s@.len(),
            start <= i <= n,
            first_index_from(s@, c, start as int) == first_index_from(s@, c, i as int),
            forall|k: int| start <= k < i ==> s@[k] != c,
        decreases n - i,
    {
        if s.get_char(i) == c {
            return i;
        }
        i = i + 1;
    }
    i
}

/// Whether the characters of `s` from `at` on begin with `p`.
fn matches_at(s: &str, n: usize, p: &str, m: usize, at: usize) -> (r: bool)
    requires
        n == s@.len(),
        m == p@.len(),
        at + m <= n,
    ensures
        r == (s@.subrange(at as int, at + m) == p@),
{
    let mut k: usize = 0;
    while k < m
        invariant
            n == s@.len(),
            m == p@.len(),
            at + m <= n,
            k <= m,
            forall|q: int| 0 <= q < k ==> s@[at + q] == p@[q],
        decreases m - k,
    {
        if s.get_char(at + k) != p.get_char(k) {
            assert(s@.subrange(at as int, at + m)[k as int] != p@[k as int]);
            return false;
        }
        k = k + 1;
    }
    assert(s@.subrange(at as int, at + m) =~= p@);
    true
}

/// Whether `p` occurs in `s`.
pub fn contains_text(s: &str, p: &str) -> (r: bool)
    ensures
        r == contains_seq(s@, p@),
{
    let n = s.unicode_len();
    let m = p.unicode_len();
    if m > n {
        return false;
    }
    let last = n - m;
    let mut i: usize = 0;
    while i < last
        invariant
            n == s@.len(),
            m == p@.len(),
            last == n - m,
            i <= last,
            forall|j: int| 0 <= j < i ==> #[trigger] s@.subrange(j, j + m) != p@,
        decreases last - i,
    {
        if matches_at(s, n, p, m, i) {
            return true;
        }
        i = i + 1;
    }
    matches_at(s, n, p, m, last)
}

/// The text before the first `c` of `s`.
pub fn text_before(s: &str, c: char) -> (r: String)
    ensures
        r@ == before_first(s@, c),
{
    let n = s.unicode_len();
    let j = find_char_from(s, n, c, 0);
    String::from_str(s.substring_char(0, j))
}

} // verus!
