//! Character-level helpers shared by the codec and the configuration format:
//! prefix tests, first-occurrence search, and string equality.

use vstd::prelude::*;

verus! {

/// True when `s` begins with `p`.
pub open spec fn text_starts_with(s: Seq<char>, p: Seq<char>) -> bool {
    p.len() <= s.len() && s.subrange(0, p.len() as int) == p
}

/// True when `ch` occurs nowhere in `s`.
pub open spec fn has_no_char(s: Seq<char>, ch: char) -> bool {
    forall|i: int| 0 <= i < s.len() ==> s[i] != ch
}

/// The index of the first occurrence of `ch` in `s` at or after `from`,
/// or -1 when there is none.
pub open spec fn find_from(s: Seq<char>, from: int, ch: char) -> int
    decreases s.len() - from,
{
    if from < 0 || from >= s.len() {
        -1
    } else if s[from] == ch {
        from
    } else {
        find_from(s, from + 1, ch)
    }
}

/// `find_from` returns exactly the first occurrence: a position `k` below
/// which `ch` does not occur, and which holds `ch` unless the search space is
/// exhausted, is what the search yields.
pub proof fn lemma_find_from_at(s: Seq<char>, from: int, ch: char, k: int)
    requires
        0 <= from <= k <= s.len(),
        forall|i: int| from <= i < k ==> s[i] != ch,
        k < s.len() ==> s[k] == ch,
    ensures
        k < s.len() ==> find_from(s, from, ch) == k,
        k == s.len() ==> find_from(s, from, ch) == -1,
    decreases k - from,
{
    if from < k {
        lemma_find_from_at(s, from + 1, ch, k);
    }
}

/// A successful search lands on `ch`, after a stretch without it.
pub proof fn lemma_find_from_found(s: Seq<char>, from: int, ch: char)
    requires
        0 <= from <= s.len(),
        find_from(s, from, ch) >= 0,
    ensures
        from <= find_from(s, from, ch) < s.len(),
        s[find_from(s, from, ch)] == ch,
        forall|i: int| from <= i < find_from(s, from, ch) ==> s[i] != ch,
    decreases s.len() - from,
{
    if from < s.len() && s[from] != ch {
        lemma_find_from_found(s, from + 1, ch);
    }
}

/// The first occurrence of `ch` in `s` at or after `from`.
pub fn find_char(s: &str, from: usize, ch: char) -> (r: Option<usize>)
    requires
        from <= s@.len(),
    ensures
        match r {
            Some(i) => from <= i < s@.len() && i == find_from(s@, from as int, ch),
            None => find_from(s@, from as int, ch) == -1,
        },
{
    let n = s.unicode_len();
    let mut i = from;
    while i < n
        invariant
            from <= i <= n,
            n == s@.len(),
            forall|j: int| from <= j < i ==> s@[j] != ch,
        decreases n - i,
    {
        if s.get_char(i) == ch {
            proof {
                lemma_find_from_at(s@, from as int, ch, i as int);
            }
            return Some(i);
        }
        i += 1;
    }
    proof {
        lemma_find_from_at(s@, from as int, ch, n as int);
    }
    None
}

/// Character-for-character equality of two string slices.
pub fn str_eq(a: &str, b: &str) -> (r: bool)
    ensures
        r == (a@ == b@),
{
    let na = a.unicode_len();
    let nb = b.unicode_len();
    if na != nb {
        return false;
    }
    let mut i: usize = 0;
    while i < na
        invariant
            0 <= i <= na,
            na == a@.len(),
            na == b@.len(),
            forall|j: int| 0 <= j < i ==> a@[j] == b@[j],
        decreases na - i,
    {
        if a.get_char(i) != b.get_char(i) {
            return false;
        }
        i += 1;
    }
    proof {
        assert(a@ =~= b@);
    }
    true
}

/// Whether `s` begins with `p`.
pub fn str_starts_with(s: &str, p: &str) -> (r: bool)
    ensures
        r == text_starts_with(s@, p@),
{
    let n = s.unicode_len();
    let np = p.unicode_len();
    if np > n {
        return false;
    }
    let mut i: usize = 0;
    while i < np
        invariant
            0 <= i <= np,
            np <= n,
            n == s@.len(),
            np == p@.len(),
            forall|j: int| 0 <= j < i ==> s@[j] == p@[j],
        decreases np - i,
    {
        if s.get_char(i) != p.get_char(i) {
            proof {
                assert(s@.subrange(0, p@.len() as int)[i as int] != p@[i as int]);
            }
            return false;
        }
        i += 1;
    }
    proof {
        assert(s@.subrange(0, p@.len() as int) =~= p@);
    }
    true
}

} // verus!
