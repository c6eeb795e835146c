//! Character-level helpers shared by the classifier and the path resolver.

use vstd::prelude::*;
use vstd::string::*;

verus! {

/// `prefix` followed by something (possibly nothing) is `s`.
pub open spec fn starts_with(s: Seq<char>, prefix: Seq<char>) -> bool {
    prefix.len() <= s.len() && s.subrange(0, prefix.len() as int) == prefix
}

/// The position of the last `c` in `s`, if `c` occurs at all.
pub open spec fn last_index_of(s: Seq<char>, c: char) -> Option<int>
    decreases s.len(),
{
    if s.len() == 0 {
        None
    } else if s.last() == c {
        Some(s.len() - 1)
    } else {
        last_index_of(s.drop_last(), c)
    }
}

/// `last_index_of` finds an occurrence with no later one, and finds nothing
/// only where there is none.
pub proof fn lemma_last_index_of(s: Seq<char>, c: char)
    ensures
        match last_index_of(s, c) {
            Some(i) => 0 <= i < s.len() && s[i] == c && forall|j: int|
                i < j < s.len() ==> s[j] != c,
            None => forall|j: int| 0 <= j < s.len() ==> s[j] != c,
        },
    decreases s.len(),
{
    if s.len() > 0 && s.last() != c {
        let head = s.drop_last();
        lemma_last_index_of(head, c);
        assert(forall|j: int| 0 <= j < head.len() ==> head[j] == s[j]);
    }
}

/// An index that holds `c` with no `c` after it is the one `last_index_of` finds.
pub proof fn lemma_last_index_of_unique(s: Seq<char>, c: char, i: int)
    requires
        0 <= i < s.len(),
        s[i] == c,
        forall|j: int| i < j < s.len() ==> s[j] != c,
    ensures
        last_index_of(s, c) == Some(i),
{
    lemma_last_index_of(s, c);
}

/// The characters of `s`, in order.
pub fn chars_of(s: &str) -> (v: Vec<char>)
    ensures
        v@ == s@,
{
    let mut v: Vec<char> = Vec::new();
    for c in it: s.chars()
        invariant
            v@ == it.seq().take(it.index() as int),
            it.seq() == s@,
    {
        v.push(c);
    }
    v
}

/// Finds the last `c` in `chars`.
pub fn find_last(chars: &Vec<char>, c: char) -> (r: Option<usize>)
    ensures
        match r {
            Some(i) => i < chars.len() && last_index_of(chars@, c) == Some(i as int),
            None => last_index_of(chars@, c) is None,
        },
{
    let mut i: usize = chars.len();
    while i > 0
        invariant
            i <= chars.len(),
            forall|j: int| i <= j < chars.len() ==> chars@[j] != c,
        decreases i,
    {
        i = i - 1;
        if chars[i] == c {
            proof {
                lemma_last_index_of_unique(chars@, c, i as int);
            }
            return Some(i);
        }
    }
    proof {
        lemma_last_index_of(chars@, c);
    }
    None
}

/// Whether what follows position `from` in `chars` is exactly `word`.
pub fn tail_is(chars: &Vec<char>, from: usize, word: &str) -> (r: bool)
    requires
        from <= chars.len(),
    ensures
        r == (chars@.skip(from as int) == word@),
{
    let expected = chars_of(word);
    if chars.len() - from != expected.len() {
        return false;
    }
    let mut k: usize = 0;
    while k < expected.len()
        invariant
            from <= chars.len(),
            chars.len() - from == expected.len(),
            k <= expected.len(),
            expected@ == word@,
            forall|j: int| 0 <= j < k ==> chars@[from + j] == expected@[j],
        decreases expected.len() - k,
    {
        if chars[from + k] != expected[k] {
            return false;
        }
        k = k + 1;
    }
    assert(chars@.skip(from as int) =~= word@);
    true
}

/// Whether `a` and `b` hold the same characters.
pub fn text_eq(a: &str, b: &str) -> (r: bool)
    ensures
        r == (a@ == b@),
{
    let chars = chars_of(a);
    assert(chars@.skip(0) =~= chars@);
    tail_is(&chars, 0, b)
}

/// Whether `chars` begins with `prefix`.
pub fn begins_with(chars: &Vec<char>, prefix: &Vec<char>) -> (r: bool)
    ensures
        r == starts_with(chars@, prefix@),
{
    if prefix.len() > chars.len() {
        return false;
    }
    let mut k: usize = 0;
    while k < prefix.len()
        invariant
            prefix.len() <= chars.len(),
            k <= prefix.len(),
            forall|j: int| 0 <= j < k ==> chars@[j] == prefix@[j],
        decreases prefix.len() - k,
    {
        if chars[k] != prefix[k] {
            return false;
        }
        k = k + 1;
    }
    assert(chars@.subrange(0, prefix.len() as int) =~= prefix@);
    true
}

/// A copy of `s` from character `from` to the end.
pub fn tail_from(s: &str, from: usize) -> (r: String)
    requires
        from <= s@.len(),
    ensures
        r@ == s@.skip(from as int),
{
    let end: usize = s.unicode_len();
    s.substring_char(from, end).to_owned()
}

} // verus!
