use vstd::prelude::*;

verus! {

/// The whitespace characters recognised when delegated tool output is
/// scanned for names.
pub open spec fn is_space(c: char) -> bool {
    c == ' ' || c == '\t' || c == '\r' || c == '\n'
}

/// Executable twin of [`is_space`].
pub fn space_char(c: char) -> (r: bool)
    ensures
        r == is_space(c),
{
    c == ' ' || c == '\t' || c == '\r' || c == '\n'
}

/// `t` occurs in `s` at position `i` as a whole whitespace-separated word:
/// the characters match and both sides border on whitespace or on an end
/// of `s`.
pub open spec fn token_at(s: Seq<char>, t: Seq<char>, i: int) -> bool {
    &&& 0 <= i
    &&& i + t.len() <= s.len()
    &&& s.subrange(i, i + t.len()) == t
    &&& (i == 0 || is_space(s[i - 1]))
    &&& (i + t.len() == s.len() || is_space(s[i + t.len()]))
}

/// `t` is one of the whitespace-separated words of `s`.
pub open spec fn has_token(s: Seq<char>, t: Seq<char>) -> bool {
    &&& t.len() > 0
    &&& (forall|k: int| 0 <= k < t.len() ==> !is_space(#[trigger] t[k]))
    &&& exists|i: int| token_at(s, t, i)
}

/// Decides [`has_token`]: whether `t` occurs in `s` as a whole
/// whitespace-separated word.
pub fn contains_token(s: &str, t: &str) -> (r: bool)
    ensures
        r == has_token(s@, t@),
{
    let n = s.unicode_len();
    let m = t.unicode_len();
    if m == 0 {
        return false;
    }
    let mut k: usize = 0;
    while k < m
        invariant
            m == t@.len(),
            k <= m,
            forall|q: int| 0 <= q < k ==> !is_space(#[trigger] t@[q]),
        decreases m - k,
    {
        if space_char(t.get_char(k)) {
            return false;
        }
        k = k + 1;
    }
    if m > n {
        assert(forall|i: int| !token_at(s@, t@, i));
        return false;
    }
    let mut i: usize = 0;
    while i <= n - m
        invariant
            n == s@.len(),
            m == t@.len(),
            0 < m <= n,
            t@.len() > 0,
            forall|k: int| 0 <= k < t@.len() ==> !is_space(#[trigger] t@[k]),
            i <= n - m + 1,
            forall|q: int| 0 <= q < i ==> !token_at(s@, t@, q),
        decreases n - i,
    {
        if token_at_check(s, t, i) {
            assert(token_at(s@, t@, i as int));
            return true;
        }
        i = i + 1;
    }
    assert(forall|q: int| token_at(s@, t@, q) ==> 0 <= q <= n - m);
    false
}

/// Decides [`token_at`] for one candidate position.
fn token_at_check(s: &str, t: &str, i: usize) -> (r: bool)
    requires
        i + t@.len() <= s@.len(),
        t@.len() > 0,
    ensures
        r == token_at(s@, t@, i as int),
{
    let n = s.unicode_len();
    let m = t.unicode_len();
    if !(i == 0 || space_char(s.get_char(i - 1))) {
        return false;
    }
    if !(i + m == n || space_char(s.get_char(i + m))) {
        return false;
    }
    let mut k: usize = 0;
    while k < m
        invariant
            n == s@.len(),
            m == t@.len(),
            i + m <= n,
            k <= m,
            forall|q: int| 0 <= q < k ==> s@[i + q] == t@[q],
        decreases m - k,
    {
        if s.get_char(i + k) != t.get_char(k) {
            assert(s@.subrange(i as int, i + m) != t@) by {
                assert(s@.subrange(i as int, i + m)[k as int] == s@[i + k]);
            }
            return false;
        }
        k = k + 1;
    }
    assert(s@.subrange(i as int, i + m) =~= t@);
    true
}

/// The characters of `s` from `i` to `j` form one line: both borders are a
/// newline or an end of `s`, and no newline lies between them.
pub open spec fn line_at(s: Seq<char>, i: int, j: int) -> bool {
    &&& 0 <= i <= j <= s.len()
    &&& (i == 0 || s[i - 1] == '\n')
    &&& (j == s.len() || s[j] == '\n')
    &&& (forall|k: int| i <= k < j ==> s[k] != '\n')
}

/// A line that a line-by-line reading of `s` yields. The empty tail that
/// follows a final newline (or an empty `s`) is not a line of its own.
pub open spec fn listed_line(s: Seq<char>, i: int, j: int) -> bool {
    line_at(s, i, j) && i < s.len()
}

/// `l` with its trailing whitespace removed.
pub open spec fn trimmed(l: Seq<char>) -> Seq<char>
    decreases l.len(),
{
    if l.len() > 0 && is_space(l[l.len() - 1]) {
        trimmed(l.drop_last())
    } else {
        l
    }
}

/// [`trimmed`] keeps exactly the prefix that ends at the last non-space
/// character.
proof fn lemma_trimmed_prefix(l: Seq<char>, e: int)
    requires
        0 <= e <= l.len(),
        forall|k: int| e <= k < l.len() ==> is_space(#[trigger] l[k]),
        e == 0 || !is_space(l[e - 1]),
    ensures
        trimmed(l) == l.subrange(0, e),
    decreases l.len(),
{
    if l.len() > 0 && is_space(l[l.len() - 1]) {
        assert(e < l.len());
        lemma_trimmed_prefix(l.drop_last(), e);
        assert(l.drop_last().subrange(0, e) =~= l.subrange(0, e));
    } else {
        assert(e == l.len());
        assert(l.subrange(0, e) =~= l);
    }
}

/// One of the lines of `s`, once its trailing whitespace is removed, is
/// exactly `t`.
pub open spec fn has_trimmed_line(s: Seq<char>, t: Seq<char>) -> bool {
    exists|i: int, j: int| listed_line(s, i, j) && trimmed(s.subrange(i, j)) == t
}

/// Decides [`has_trimmed_line`]: whether some line of `s`, ignoring
/// trailing whitespace, reads exactly `t`.
pub fn contains_trimmed_line(s: &str, t: &str) -> (r: bool)
    ensures
        r == has_trimmed_line(s@, t@),
{
    let n = s.unicode_len();
    let mut p: usize = 0;
    while p < n
        invariant
            n == s@.len(),
            p <= n,
            p == 0 || s@[p - 1] == '\n',
            forall|i: int, j: int|
                listed_line(s@, i, j) && i < p ==> trimmed(#[trigger] s@.subrange(i, j)) != t@,
        decreases n - p,
    {
        let ghost p0 = p as int;
        // find the end of the line that starts at p
        let mut j: usize = p;
        while j < n && s.get_char(j) != '\n'
            invariant
                n == s@.len(),
                p == p0,
                0 <= p0 <= j <= n,
                forall|k: int| p0 <= k < j ==> s@[k] != '\n',
            decreases n - j,
        {
            j = j + 1;
        }
        assert(line_at(s@, p0, j as int));
        // drop trailing whitespace of the line
        let mut e: usize = j;
        while e > p && space_char(s.get_char(e - 1))
            invariant
                n == s@.len(),
                p == p0,
                0 <= p0 <= e <= j <= n,
                forall|k: int| e <= k < j ==> is_space(#[trigger] s@[k]),
            decreases e,
        {
            e = e - 1;
        }
        proof {
            lemma_trimmed_prefix(s@.subrange(p0, j as int), e - p0);
            assert(s@.subrange(p0, j as int).subrange(0, e - p0) =~= s@.subrange(p0, e as int));
        }
        // compare the trimmed line with t
        if line_eq_check(s, p, e, t) {
            assert(listed_line(s@, p0, j as int));
            assert(trimmed(s@.subrange(p0, j as int)) == t@);
            return true;
        }
        proof {
            // the line that starts at p ends at j and nowhere else
            assert forall|jj: int| listed_line(s@, p0, jj) implies jj == j by {
                if jj < j {
                    assert(s@[jj] != '\n');
                } else if jj > j {
                    assert(s@[j as int] != '\n');
                }
            }
            // and no further line starts at or before j
            assert forall|i: int, jj: int|
                listed_line(s@, i, jj) && i <= j implies i <= p0 by {
                if p0 < i <= j {
                    assert(s@[i - 1] != '\n');
                }
            }
        }
        if j == n {
            // the line that starts at p reaches the end of s, so every
            // line of s has been examined
            assert forall|i: int, jj: int| listed_line(s@, i, jj) implies trimmed(
                #[trigger] s@.subrange(i, jj),
            ) != t@ by {}
            return false;
        }
        p = j + 1;
    }
    false
}

/// Compares the characters of `s` from `p` to `e` with `t`.
fn line_eq_check(s: &str, p: usize, e: usize, t: &str) -> (r: bool)
    requires
        p <= e <= s@.len(),
    ensures
        r == (s@.subrange(p as int, e as int) == t@),
{
    let m = t.unicode_len();
    if e - p != m {
        assert(s@.subrange(p as int, e as int).len() != t@.len());
        return false;
    }
    let mut k: usize = 0;
    while k < m
        invariant
            m == t@.len(),
            p + m == e,
            e <= s@.len(),
            k <= m,
            forall|q: int| 0 <= q < k ==> s@[p + q] == t@[q],
        decreases m - k,
    {
        if s.get_char(p + k) != t.get_char(k) {
            assert(s@.subrange(p as int, e as int) != t@) by {
                assert(s@.subrange(p as int, e as int)[k as int] == s@[p + k]);
            }
            return false;
        }
        k = k + 1;
    }
    assert(s@.subrange(p as int, e as int) =~= t@);
    true
}

/// The first whitespace-separated word of `s` fills positions `a` to `b`:
/// everything before it is whitespace, it is non-empty and free of
/// whitespace, and it borders on whitespace or the end of `s`.
pub open spec fn first_token_at(s: Seq<char>, a: int, b: int) -> bool {
    &&& 0 <= a < b <= s.len()
    &&& (forall|k: int| 0 <= k < a ==> is_space(#[trigger] s[k]))
    &&& (forall|k: int| a <= k < b ==> !is_space(#[trigger] s[k]))
    &&& (b == s.len() || is_space(s[b]))
}

/// Returns the first whitespace-separated word of `s`, or `None` when `s`
/// is whitespace only.
pub fn first_token(s: &str) -> (r: Option<String>)
    ensures
        r matches Some(t) ==> exists|a: int, b: int|
            first_token_at(s@, a, b) && t@ == s@.subrange(a, b),
        r is None ==> forall|k: int| 0 <= k < s@.len() ==> is_space(#[trigger] s@[k]),
{
    let n = s.unicode_len();
    let mut a: usize = 0;
    while a < n && space_char(s.get_char(a))
        invariant
            n == s@.len(),
            a <= n,
            forall|k: int| 0 <= k < a ==> is_space(#[trigger] s@[k]),
        decreases n - a,
    {
        a = a + 1;
    }
    if a == n {
        return None;
    }
    let mut b: usize = a;
    while b < n && !space_char(s.get_char(b))
        invariant
            n == s@.len(),
            a <= b <= n,
            forall|k: int| a <= k < b ==> !is_space(#[trigger] s@[k]),
        decreases n - b,
    {
        b = b + 1;
    }
    assert(a < b);
    assert(first_token_at(s@, a as int, b as int));
    let piece = s.substring_char(a, b);
    Some(piece.to_owned())
}

} // verus!
