use vstd::prelude::*;

verus! {

/// `t` is a prefix of `s`.
pub open spec fn has_prefix(s: Seq<char>, t: Seq<char>) -> bool {
    t.len() <= s.len() && s.subrange(0, t.len() as int) == t
}

/// `t` is a suffix of `s`.
pub open spec fn has_suffix(s: Seq<char>, t: Seq<char>) -> bool {
    t.len() <= s.len() && s.subrange(s.len() - t.len(), s.len() as int) == t
}

/// `t` occurs in `s` at position `i`.
pub open spec fn occurs_at(s: Seq<char>, t: Seq<char>, i: int) -> bool {
    0 <= i && i + t.len() <= s.len() && s.subrange(i, i + t.len()) == t
}

/// `t` occurs somewhere in `s`.
pub open spec fn has_infix(s: Seq<char>, t: Seq<char>) -> bool {
    exists|i: int| occurs_at(s, t, i)
}

/// What `str::to_lowercase` makes of a string.
pub uninterp spec fn lower_of(s: Seq<char>) -> Seq<char>;

/// Relies on `str::to_lowercase`: the lower-case form depends on the
/// characters alone, and the empty string stays empty.
#[verifier::external_body]
pub(crate) fn lowercase(s: &str) -> (r: String)
    ensures
        r@ == lower_of(s@),
        s@.len() == 0 ==> r@.len() == 0,
{
    s.to_lowercase()
}

/// Whether `t` occurs in `s` starting at character `at`.
fn matches_at(s: &str, s_len: usize, t: &str, t_len: usize, at: usize) -> (r: bool)
    requires
        s_len == s@.len(),
        t_len == t@.len(),
        at + t_len <= s_len,
    ensures
        r == (s@.subrange(at as int, at + t_len) == t@),
{
    let mut k: usize = 0;
    while k < t_len
        invariant
            s_len == s@.len(),
            t_len == t@.len(),
            at + t_len <= s_len,
            k <= t_len,
            forall|j: int| 0 <= j < k ==> s@[at + j] == t@[j],
        decreases t_len - k,
    {
        if s.get_char(at + k) != t.get_char(k) {
            assert(s@.subrange(at as int, at + t_len)[k as int] != t@[k as int]);
            return false;
        }
        k = k + 1;
    }
    assert(s@.subrange(at as int, at + t_len) =~= t@);
    true
}

/// Whether `s` starts with `t`.
pub fn starts_with(s: &str, t: &str) -> (r: bool)
    ensures
        r == has_prefix(s@, t@),
{
    let s_len = s.unicode_len();
    let t_len = t.unicode_len();
    if t_len > s_len {
        return false;
    }
    matches_at(s, s_len, t, t_len, 0)
}

/// Whether `s` ends with `t`.
pub fn ends_with(s: &str, t: &str) -> (r: bool)
    ensures
        r == has_suffix(s@, t@),
{
    let s_len = s.unicode_len();
    let t_len = t.unicode_len();
    if t_len > s_len {
        return false;
    }
    matches_at(s, s_len, t, t_len, s_len - t_len)
}

/// Whether `t` occurs anywhere in `s`.
pub fn contains(s: &str, t: &str) -> (r: bool)
    ensures
        r == has_infix(s@, t@),
{
    let s_len = s.unicode_len();
    let t_len = t.unicode_len();
    if t_len > s_len {
        assert forall|i: int| !occurs_at(s@, t@, i) by {}
        return false;
    }
    let last = s_len - t_len;
    let mut at: usize = 0;
    loop
        invariant
            s_len == s@.len(),
            t_len == t@.len(),
            last == s_len - t_len,
            at <= last,
            forall|i: int| 0 <= i < at ==> !occurs_at(s@, t@, i),
        ensures
            forall|i: int| 0 <= i <= last ==> !occurs_at(s@, t@, i),
        decreases last - at,
    {
        if matches_at(s, s_len, t, t_len, at) {
            assert(occurs_at(s@, t@, at as int));
            return true;
        }
        if at == last {
            break;
        }
        at = at + 1;
    }
    assert forall|i: int| !occurs_at(s@, t@, i) by {
        if 0 <= i && i <= last {
        }
    }
    false
}

/// The index of the last `c` in `s`, or -1 when there is none.
pub open spec fn last_of(s: Seq<char>, c: char) -> int
    decreases s.len(),
{
    if s.len() == 0 {
        -1
    } else if s.last() == c {
        s.len() - 1
    } else {
        last_of(s.drop_last(), c)
    }
}

/// `last_of` lies in bounds, and holds `c` when it is not -1.
pub proof fn lemma_last_of_bounds(s: Seq<char>, c: char)
    ensures
        -1 <= last_of(s, c) < s.len(),
        last_of(s, c) >= 0 ==> s[last_of(s, c)] == c,
    decreases s.len(),
{
    if s.len() > 0 && s.last() != c {
        lemma_last_of_bounds(s.drop_last(), c);
    }
}

/// The position just after the last `c` in `s`, or 0 when there is none.
pub fn after_last(s: &str, c: char) -> (r: usize)
    ensures
        r == last_of(s@, c) + 1,
        r <= s@.len(),
{
    let n = s.unicode_len();
    let mut k: usize = n;
    assert(s@.subrange(0, n as int) =~= s@);
    loop
        invariant
            k <= n,
            n == s@.len(),
            last_of(s@, c) == last_of(s@.subrange(0, k as int), c),
        ensures
            k <= n,
            last_of(s@, c) == k - 1,
        decreases k,
    {
        if k == 0 {
            break;
        }
        if s.get_char(k - 1) == c {
            break;
        }
        assert(s@.subrange(0, k as int).drop_last() =~= s@.subrange(0, k - 1));
        k = k - 1;
    }
    k
}

} // verus!
