//! Verified text search used by the modelled shader front end: shader sources
//! are plain text, and uniform names resolve by reference search over the
//! sources a program was linked from.

use vstd::prelude::*;

verus! {

/// `needle` occurs in `hay` starting at position `i`.
pub open spec fn spec_contains_at(hay: Seq<char>, needle: Seq<char>, i: int) -> bool {
    0 <= i && i + needle.len() <= hay.len() && hay.subrange(i, i + needle.len()) == needle
}

/// `needle` occurs somewhere in `hay`.
pub open spec fn spec_contains(hay: Seq<char>, needle: Seq<char>) -> bool {
    exists|i: int| spec_contains_at(hay, needle, i)
}

/// Finds the first occurrence of `needle` in `hay`, by characters.
pub fn find_substring(hay: &str, needle: &str) -> (r: Option<usize>)
    ensures
        match r {
            Some(i) => spec_contains_at(hay@, needle@, i as int) && (forall|j: int|
                0 <= j < i ==> !spec_contains_at(hay@, needle@, j)),
            None => !spec_contains(hay@, needle@),
        },
{
    let hay_len = hay.unicode_len();
    let needle_len = needle.unicode_len();
    if needle_len > hay_len {
        return None;
    }
    if needle_len == 0 {
        proof {
            assert(hay@.subrange(0, 0) =~= needle@);
        }
        return Some(0);
    }
    let mut i: usize = 0;
    while i <= hay_len - needle_len
        invariant
            1 <= needle_len,
            needle_len == needle@.len(),
            hay_len == hay@.len(),
            needle_len <= hay_len,
            0 <= i <= hay_len - needle_len + 1,
            forall|j: int| 0 <= j < i ==> !spec_contains_at(hay@, needle@, j),
        decreases hay_len - needle_len - i + 1,
    {
        let mut k: usize = 0;
        let mut matched = true;
        while k < needle_len
            invariant
                needle_len == needle@.len(),
                hay_len == hay@.len(),
                i + needle_len <= hay_len,
                0 <= k <= needle_len,
                matched ==> (forall|m: int| 0 <= m < k ==> hay@[i + m] == needle@[m]),
                !matched ==> !spec_contains_at(hay@, needle@, i as int),
            decreases needle_len - k,
        {
            if matched && hay.get_char(i + k) != needle.get_char(k) {
                proof {
                    assert(hay@.subrange(i as int, i + needle@.len()) == needle@ ==> hay@.subrange(
                        i as int,
                        i + needle@.len(),
                    )[k as int] == needle@[k as int]);
                }
                matched = false;
            }
            k = k + 1;
        }
        if matched {
            proof {
                assert(hay@.subrange(i as int, i + needle@.len()) =~= needle@);
            }
            return Some(i);
        }
        i = i + 1;
    }
    proof {
        assert forall|j: int| spec_contains_at(hay@, needle@, j) implies false by {
            assert(j + needle@.len() <= hay@.len());
            assert(j >= i);
        }
    }
    None
}

/// Whether `needle` occurs in `hay`, by characters.
pub fn contains_substring(hay: &str, needle: &str) -> (b: bool)
    ensures
        b == spec_contains(hay@, needle@),
{
    match find_substring(hay, needle) {
        Some(_) => true,
        None => false,
    }
}

/// Whether the text contains the character `c`.
pub fn contains_char(s: &str, c: char) -> (b: bool)
    ensures
        b == s@.contains(c),
{
    let len = s.unicode_len();
    let mut i: usize = 0;
    while i < len
        invariant
            len == s@.len(),
            0 <= i <= len,
            forall|j: int| 0 <= j < i ==> s@[j] != c,
        decreases len - i,
    {
        if s.get_char(i) == c {
            return true;
        }
        i = i + 1;
    }
    proof {
        assert(!s@.contains(c)) by {
            if s@.contains(c) {
                let j = choose|j: int| 0 <= j < s@.len() && s@[j] == c;
            }
        }
    }
    false
}

} // verus!
