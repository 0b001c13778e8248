//! Substring search over character sequences.
//!
//! The response decoders and the provider name computation are all phrased
//! in terms of the first (or last) occurrence of a marker string inside a
//! body.  This module defines that notion once, as spec functions over
//! `Seq<char>`, and provides verified executable searches for it.

use vstd::prelude::*;

verus! {

/// Relies on `String::push` of std: it appends the given character to the
/// end of the string, as its documentation states.
pub assume_specification[ String::push ](s: &mut String, ch: char)
    ensures
        final(s)@ == old(s)@.push(ch),
;

/// `needle` occurs in `hay` starting at position `i`.
pub open spec fn match_at(hay: Seq<char>, needle: Seq<char>, i: int) -> bool {
    &&& 0 <= i
    &&& i + needle.len() <= hay.len()
    &&& forall|j: int| 0 <= j < needle.len() ==> hay[i + j] == needle[j]
}

/// The first position `>= i` at which `needle` occurs in `hay`, if any.
pub open spec fn find_from(hay: Seq<char>, needle: Seq<char>, i: int) -> Option<int>
    decreases hay.len() - i,
{
    if i + needle.len() > hay.len() {
        None
    } else if match_at(hay, needle, i) {
        Some(i)
    } else {
        find_from(hay, needle, i + 1)
    }
}

/// The position of the first occurrence of `needle` in `hay`, if any.
pub open spec fn find(hay: Seq<char>, needle: Seq<char>) -> Option<int> {
    find_from(hay, needle, 0)
}

/// The last position `<= i` at which `needle` occurs in `hay`, if any.
pub open spec fn rfind_from(hay: Seq<char>, needle: Seq<char>, i: int) -> Option<int>
    decreases i + 1,
{
    if i < 0 {
        None
    } else if match_at(hay, needle, i) {
        Some(i)
    } else {
        rfind_from(hay, needle, i - 1)
    }
}

/// The position of the last occurrence of `needle` in `hay`, if any.
pub open spec fn rfind(hay: Seq<char>, needle: Seq<char>) -> Option<int> {
    rfind_from(hay, needle, hay.len() - needle.len())
}

/// What `find_from` returns is the least match position at or after `i`;
/// `None` means there is none at all.
pub proof fn lemma_find_from_characterization(hay: Seq<char>, needle: Seq<char>, i: int)
    ensures
        match find_from(hay, needle, i) {
            Some(k) => {
                &&& i <= k
                &&& match_at(hay, needle, k)
                &&& forall|m: int| i <= m < k ==> !match_at(hay, needle, m)
            },
            None => forall|m: int| i <= m ==> !match_at(hay, needle, m),
        },
    decreases hay.len() - i,
{
    if i + needle.len() > hay.len() {
        assert forall|m: int| i <= m implies !match_at(hay, needle, m) by {
            assert(m + needle.len() > hay.len());
        }
    } else if match_at(hay, needle, i) {
    } else {
        lemma_find_from_characterization(hay, needle, i + 1);
    }
}

/// Conversely, a match position with no earlier match at or after `i` is
/// exactly what `find_from` returns.
pub proof fn lemma_find_from_exact(hay: Seq<char>, needle: Seq<char>, i: int, k: int)
    requires
        i <= k,
        match_at(hay, needle, k),
        forall|m: int| i <= m < k ==> !match_at(hay, needle, m),
    ensures
        find_from(hay, needle, i) == Some(k),
    decreases k - i,
{
    if i < k {
        lemma_find_from_exact(hay, needle, i + 1, k);
    }
}

/// If `needle` occurs nowhere at or after `i`, `find_from` reports `None`.
pub proof fn lemma_find_from_none(hay: Seq<char>, needle: Seq<char>, i: int)
    requires
        forall|m: int| i <= m ==> !match_at(hay, needle, m),
    ensures
        find_from(hay, needle, i) is None,
    decreases hay.len() - i,
{
    if i + needle.len() <= hay.len() {
        lemma_find_from_none(hay, needle, i + 1);
    }
}

/// What `rfind_from` returns is the greatest match position at or before
/// `i`; `None` means there is none at all.
pub proof fn lemma_rfind_from_characterization(hay: Seq<char>, needle: Seq<char>, i: int)
    ensures
        match rfind_from(hay, needle, i) {
            Some(k) => {
                &&& k <= i
                &&& match_at(hay, needle, k)
                &&& forall|m: int| k < m <= i ==> !match_at(hay, needle, m)
            },
            None => forall|m: int| m <= i ==> !match_at(hay, needle, m),
        },
    decreases i + 1,
{
    if i < 0 {
    } else if match_at(hay, needle, i) {
    } else {
        lemma_rfind_from_characterization(hay, needle, i - 1);
    }
}

/// A match position with no later match up to `i` is exactly what
/// `rfind_from` returns.
pub proof fn lemma_rfind_from_exact(hay: Seq<char>, needle: Seq<char>, i: int, k: int)
    requires
        k <= i,
        match_at(hay, needle, k),
        forall|m: int| k < m <= i ==> !match_at(hay, needle, m),
    ensures
        rfind_from(hay, needle, i) == Some(k),
    decreases i - k,
{
    if k < i {
        lemma_rfind_from_exact(hay, needle, i - 1, k);
    }
}

/// If `needle` occurs nowhere at or before `i`, `rfind_from` reports `None`.
pub proof fn lemma_rfind_from_none(hay: Seq<char>, needle: Seq<char>, i: int)
    requires
        forall|m: int| m <= i ==> !match_at(hay, needle, m),
    ensures
        rfind_from(hay, needle, i) is None,
    decreases i + 1,
{
    if i >= 0 {
        lemma_rfind_from_none(hay, needle, i - 1);
    }
}

/// Whether `needle` occurs in `hay` starting at position `i`, checked
/// character by character.
fn match_at_exec(hay: &str, needle: &str, i: usize, hlen: usize, nlen: usize) -> (b: bool)
    requires
        hlen == hay@.len(),
        nlen == needle@.len(),
        i + nlen <= hlen,
    ensures
        b == match_at(hay@, needle@, i as int),
{
    let mut j: usize = 0;
    while j < nlen
        invariant
            hlen == hay@.len(),
            nlen == needle@.len(),
            i + nlen <= hlen,
            0 <= j <= nlen,
            forall|t: int| 0 <= t < j ==> hay@[i + t] == needle@[t],
        decreases nlen - j,
    {
        if hay.get_char(i + j) != needle.get_char(j) {
            assert(!match_at(hay@, needle@, i as int));
            return false;
        }
        j += 1;
    }
    true
}

/// The position of the first occurrence of `needle` in `hay`, if any.
pub fn find_sub(hay: &str, needle: &str) -> (r: Option<usize>)
    ensures
        match r {
            Some(i) => find(hay@, needle@) == Some(i as int),
            None => find(hay@, needle@) is None,
        },
{
    let hlen = hay.unicode_len();
    let nlen = needle.unicode_len();
    if nlen > hlen {
        proof {
            assert forall|m: int| 0 <= m implies !match_at(hay@, needle@, m) by {
                assert(m + needle@.len() > hay@.len());
            }
            lemma_find_from_none(hay@, needle@, 0);
        }
        return None;
    }
    let mut i: usize = 0;
    while i <= hlen - nlen
        invariant
            hlen == hay@.len(),
            nlen == needle@.len(),
            nlen <= hlen,
            0 <= i <= hlen - nlen + 1,
            forall|m: int| 0 <= m < i ==> !match_at(hay@, needle@, m),
        decreases hlen - nlen + 1 - i,
    {
        if match_at_exec(hay, needle, i, hlen, nlen) {
            proof {
                lemma_find_from_exact(hay@, needle@, 0, i as int);
            }
            return Some(i);
        }
        i += 1;
    }
    proof {
        assert forall|m: int| 0 <= m implies !match_at(hay@, needle@, m) by {
            if m <= hlen - nlen {
                assert(!match_at(hay@, needle@, m));
            } else {
                assert(m + needle@.len() > hay@.len());
            }
        }
        lemma_find_from_none(hay@, needle@, 0);
    }
    None
}

/// The position of the last occurrence of `needle` in `hay`, if any.
pub(crate) fn rfind_sub(hay: &str, needle: &str) -> (r: Option<usize>)
    requires
        needle@.len() > 0,
    ensures
        match r {
            Some(i) => rfind(hay@, needle@) == Some(i as int) && match_at(
                hay@,
                needle@,
                i as int,
            ),
            None => rfind(hay@, needle@) is None,
        },
{
    let hlen = hay.unicode_len();
    let nlen = needle.unicode_len();
    if nlen > hlen {
        proof {
            assert(hay@.len() - needle@.len() < 0);
        }
        return None;
    }
    let mut i: usize = hlen - nlen + 1;
    while i > 0
        invariant
            hlen == hay@.len(),
            nlen == needle@.len(),
            nlen <= hlen,
            0 <= i <= hlen - nlen + 1,
            forall|m: int| i <= m <= hlen - nlen ==> !match_at(hay@, needle@, m),
        decreases i,
    {
        i -= 1;
        if match_at_exec(hay, needle, i, hlen, nlen) {
            proof {
                assert forall|m: int| i < m <= hay@.len() - needle@.len() implies !match_at(
                    hay@,
                    needle@,
                    m,
                ) by {}
                lemma_rfind_from_exact(
                    hay@,
                    needle@,
                    hay@.len() - needle@.len(),
                    i as int,
                );
            }
            return Some(i);
        }
    }
    proof {
        assert forall|m: int| m <= hay@.len() - needle@.len() implies !match_at(
            hay@,
            needle@,
            m,
        ) by {
            if m >= 0 {
                assert(!match_at(hay@, needle@, m));
            }
        }
        lemma_rfind_from_none(hay@, needle@, hay@.len() - needle@.len());
    }
    None
}

/// `s` with every backslash character removed.
pub open spec fn strip_backslashes(s: Seq<char>) -> Seq<char> {
    s.filter(|c: char| c != '\\')
}

/// Copies `s`, dropping every backslash character.
pub fn strip_backslashes_exec(s: &str) -> (r: String)
    ensures
        r@ == strip_backslashes(s@),
{
    let len = s.unicode_len();
    let mut out = String::new();
    let mut i: usize = 0;
    proof {
        reveal(Seq::filter);
        assert(s@.subrange(0, 0) =~= Seq::<char>::empty());
    }
    while i < len
        invariant
            len == s@.len(),
            0 <= i <= len,
            out@ == s@.subrange(0, i as int).filter(|c: char| c != '\\'),
        decreases len - i,
    {
        let c = s.get_char(i);
        let ghost pre = s@.subrange(0, i as int);
        if c != '\\' {
            out.push(c);
        }
        i += 1;
        proof {
            reveal(Seq::filter);
            assert(s@.subrange(0, i as int).drop_last() =~= pre);
            assert(s@.subrange(0, i as int).last() == c);
        }
    }
    proof {
        assert(s@.subrange(0, len as int) =~= s@);
    }
    out
}

} // verus!
