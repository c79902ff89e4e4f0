//! Character-level helpers over `&str` that the classifier and the request
//! builders share.

use vstd::prelude::*;
use vstd::string::*;

verus! {

/// Position of the last occurrence of `c` in `s`, or -1 when there is none.
pub open spec fn last_pos(s: Seq<char>, c: char) -> int
    decreases s.len(),
{
    if s.len() == 0 {
        -1
    } else if s.last() == c {
        s.len() - 1
    } else {
        last_pos(s.drop_last(), c)
    }
}

pub proof fn lemma_last_pos_bounds(s: Seq<char>, c: char)
    ensures
        -1 <= last_pos(s, c) < s.len(),
        last_pos(s, c) >= 0 ==> s[last_pos(s, c)] == c,
        forall|j: int| last_pos(s, c) < j < s.len() ==> s[j] != c,
    decreases s.len(),
{
    if s.len() > 0 && s.last() != c {
        lemma_last_pos_bounds(s.drop_last(), c);
        assert forall|j: int| last_pos(s, c) < j < s.len() implies s[j] != c by {
            if j < s.len() - 1 {
                assert(s.drop_last()[j] == s[j]);
            }
        }
    }
}

/// The code of `c` with ASCII upper-case letters taken to lower case.
pub open spec fn ascii_lower_code(c: char) -> int {
    if 65 <= c as int <= 90 {
        c as int + 32
    } else {
        c as int
    }
}

/// `s` equals `word` when ASCII letters of `s` are read in lower case.
pub open spec fn matches_ignoring_case(s: Seq<char>, word: Seq<char>) -> bool {
    &&& s.len() == word.len()
    &&& forall|i: int| 0 <= i < s.len() ==> ascii_lower_code(#[trigger] s[i]) == word[i] as int
}

/// Index of the last `c` in `s`, or `None`.
pub fn find_last(s: &str, c: char) -> (r: Option<usize>)
    ensures
        match r {
            Some(i) => i as int == last_pos(s@, c),
            None => last_pos(s@, c) == -1,
        },
{
    let n = s.unicode_len();
    let mut i: usize = n;
    assert(s@.subrange(0, n as int) =~= s@);
    while i > 0
        invariant
            i <= n,
            n == s@.len(),
            last_pos(s@, c) == last_pos(s@.subrange(0, i as int), c),
        decreases i,
    {
        let ch = s.get_char(i - 1);
        assert(s@.subrange(0, i as int).drop_last() =~= s@.subrange(0, i - 1));
        if ch == c {
            return Some(i - 1);
        }
        i = i - 1;
    }
    assert(s@.subrange(0, 0) =~= Seq::<char>::empty());
    None
}

/// Whether `s` spells `word` up to the case of ASCII letters.
pub fn eq_ignoring_case(s: &str, word: &str) -> (r: bool)
    ensures
        r == matches_ignoring_case(s@, word@),
{
    let n = s.unicode_len();
    if n != word.unicode_len() {
        return false;
    }
    let mut i: usize = 0;
    while i < n
        invariant
            i <= n,
            n == s@.len(),
            n == word@.len(),
            forall|j: int| 0 <= j < i ==> ascii_lower_code(#[trigger] s@[j]) == word@[j] as int,
        decreases n - i,
    {
        let a = s.get_char(i) as u32;
        let lowered: u32 = if 65 <= a && a <= 90 {
            a + 32
        } else {
            a
        };
        if lowered != word.get_char(i) as u32 {
            return false;
        }
        i = i + 1;
    }
    true
}

/// Whether `a` and `b` hold the same characters.
pub fn same_text(a: &str, b: &str) -> (r: bool)
    ensures
        r == (a@ == b@),
{
    let n = a.unicode_len();
    if n != b.unicode_len() {
        return false;
    }
    let mut i: usize = 0;
    while i < n
        invariant
            i <= n,
            n == a@.len(),
            n == b@.len(),
            forall|j: int| 0 <= j < i ==> a@[j] == b@[j],
        decreases n - i,
    {
        if a.get_char(i) != b.get_char(i) {
            return false;
        }
        i = i + 1;
    }
    assert(a@ =~= b@);
    true
}

/// Whether `needle` occurs in `hay` as a contiguous run.
pub open spec fn contains_text(hay: Seq<char>, needle: Seq<char>) -> bool {
    exists|k: int| 0 <= k && k + needle.len() <= hay.len()
        && #[trigger] hay.subrange(k, k + needle.len()) == needle
}

/// Whether `needle` occurs in `hay`.
pub fn contains(hay: &str, needle: &str) -> (r: bool)
    ensures
        r == contains_text(hay@, needle@),
{
    let n = hay.unicode_len();
    let m = needle.unicode_len();
    if m > n {
        assert forall|k: int| 0 <= k && k + needle@.len() <= hay@.len() implies
            #[trigger] hay@.subrange(k, k + needle@.len()) != needle@ by {}
        return false;
    }
    let mut k: usize = 0;
    while k <= n - m
        invariant
            n == hay@.len(),
            m == needle@.len(),
            m <= n,
            k <= n - m + 1,
            forall|q: int| 0 <= q < k ==> #[trigger] hay@.subrange(q, q + m) != needle@,
        decreases n - k,
    {
        let mut j: usize = 0;
        let mut same = true;
        while j < m
            invariant
                j <= m,
                k + m <= n,
                n == hay@.len(),
                m == needle@.len(),
                same == forall|t: int| 0 <= t < j ==> hay@[k + t] == needle@[t],
            decreases m - j,
        {
            if hay.get_char(k + j) != needle.get_char(j) {
                same = false;
            }
            j = j + 1;
        }
        if same {
            assert(hay@.subrange(k as int, k + m) =~= needle@);
            return true;
        }
        k = k + 1;
    }
    assert forall|q: int| 0 <= q && q + needle@.len() <= hay@.len() implies
        #[trigger] hay@.subrange(q, q + needle@.len()) != needle@ by {
        assert(q < k);
    }
    false
}

} // verus!
