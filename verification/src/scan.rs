//! Finding a separator character in a string: the splitting primitive of the
//! coordinate and command grammars.

use vstd::prelude::*;
use vstd::string::StrSliceExecFns;

verus! {

/// Index of the first occurrence of `c`, if any.
pub open spec fn find_first(s: Seq<char>, c: char) -> Option<int>
    decreases s.len(),
{
    if s.len() == 0 {
        None
    } else if s[0] == c {
        Some(0)
    } else {
        match find_first(s.skip(1), c) {
            Some(i) => Some(i + 1),
            None => None,
        }
    }
}

/// Index of the last occurrence of `c`, if any.
pub open spec fn find_last(s: Seq<char>, c: char) -> Option<int>
    decreases s.len(),
{
    if s.len() == 0 {
        None
    } else if s.last() == c {
        Some(s.len() - 1)
    } else {
        find_last(s.drop_last(), c)
    }
}

/// `find_first` returns the first occurrence: the character is there and no
/// earlier one is.
pub proof fn lemma_find_first(s: Seq<char>, c: char)
    ensures
        match find_first(s, c) {
            None => forall|j: int| 0 <= j < s.len() ==> s[j] != c,
            Some(i) => 0 <= i < s.len() && s[i] == c && (forall|j: int| 0 <= j < i ==> s[j] != c),
        },
    decreases s.len(),
{
    if s.len() > 0 && s[0] != c {
        let t = s.skip(1);
        lemma_find_first(t, c);
        match find_first(t, c) {
            None => {
                assert forall|j: int| 0 <= j < s.len() implies s[j] != c by {
                    if j > 0 {
                        assert(t[j - 1] == s[j]);
                    }
                }
            },
            Some(k) => {
                assert(t[k] == s[k + 1]);
                assert forall|j: int| 0 <= j < k + 1 implies s[j] != c by {
                    if j > 0 {
                        assert(t[j - 1] == s[j]);
                    }
                }
            },
        }
    }
}

/// `find_last` returns the last occurrence: the character is there and no
/// later one is.
pub proof fn lemma_find_last(s: Seq<char>, c: char)
    ensures
        match find_last(s, c) {
            None => forall|j: int| 0 <= j < s.len() ==> s[j] != c,
            Some(i) => 0 <= i < s.len() && s[i] == c && (forall|j: int|
                i < j < s.len() ==> s[j] != c),
        },
    decreases s.len(),
{
    if s.len() > 0 && s.last() != c {
        let t = s.drop_last();
        lemma_find_last(t, c);
        match find_last(t, c) {
            None => {
                assert forall|j: int| 0 <= j < s.len() implies s[j] != c by {
                    if j < s.len() - 1 {
                        assert(t[j] == s[j]);
                    }
                }
            },
            Some(k) => {
                assert(t[k] == s[k]);
                assert forall|j: int| k < j < s.len() implies s[j] != c by {
                    if j < s.len() - 1 {
                        assert(t[j] == s[j]);
                    }
                }
            },
        }
    }
}

/// Index of the first occurrence of `c` in `s`, if any.
pub fn find_first_char(s: &str, c: char) -> (r: Option<usize>)
    ensures
        r is Some <==> find_first(s@, c) is Some,
        r matches Some(i) ==> find_first(s@, c) == Some(i as int) && i < s@.len() && s@[i as int]
            == c && (forall|j: int| 0 <= j < i ==> s@[j] != c),
{
    proof {
        lemma_find_first(s@, c);
    }
    let n = s.unicode_len();
    let mut i: usize = 0;
    while i < n
        invariant
            n == s@.len(),
            0 <= i <= n,
            forall|j: int| 0 <= j < i ==> s@[j] != c,
            match find_first(s@, c) {
                None => forall|j: int| 0 <= j < s@.len() ==> s@[j] != c,
                Some(k) => 0 <= k < s@.len() && s@[k] == c && (forall|j: int|
                    0 <= j < k ==> s@[j] != c),
            },
        decreases n - i,
    {
        if s.get_char(i) == c {
            proof {
                assert(s@[i as int] == c);
                match find_first(s@, c) {
                    None => {
                        assert(false);
                    },
                    Some(k) => {
                        if k < i as int {
                            assert(s@[k] != c);
                            assert(false);
                        }
                        if k > i as int {
                            assert(s@[i as int] != c);
                            assert(false);
                        }
                    },
                }
            }
            return Some(i);
        }
        i = i + 1;
    }
    None
}

/// Index of the last occurrence of `c` in `s`, if any.
pub fn find_last_char(s: &str, c: char) -> (r: Option<usize>)
    ensures
        r is Some <==> find_last(s@, c) is Some,
        r matches Some(i) ==> find_last(s@, c) == Some(i as int) && i < s@.len() && s@[i as int]
            == c && (forall|j: int| i < j < s@.len() ==> s@[j] != c),
{
    proof {
        lemma_find_last(s@, c);
    }
    let n = s.unicode_len();
    let mut i: usize = n;
    while i > 0
        invariant
            n == s@.len(),
            0 <= i <= n,
            forall|j: int| i <= j < n ==> s@[j] != c,
            match find_last(s@, c) {
                None => forall|j: int| 0 <= j < s@.len() ==> s@[j] != c,
                Some(k) => 0 <= k < s@.len() && s@[k] == c && (forall|j: int|
                    k < j < s@.len() ==> s@[j] != c),
            },
        decreases i,
    {
        i = i - 1;
        if s.get_char(i) == c {
            proof {
                assert(s@[i as int] == c);
                match find_last(s@, c) {
                    None => {
                        assert(false);
                    },
                    Some(k) => {
                        if k < i as int {
                            assert(s@[i as int] != c);
                            assert(false);
                        }
                        if k > i as int {
                            assert(s@[k] != c);
                            assert(false);
                        }
                    },
                }
            }
            return Some(i);
        }
    }
    None
}

} // verus!
