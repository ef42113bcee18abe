//! Text as characters, and the search that splits it.

use vstd::prelude::*;

verus! {

/// Where `c` first stands in `s` at or after `from`; the length of `s` if it
/// stands nowhere there.
pub open spec fn first_index(s: Seq<char>, c: char, from: int) -> int
    decreases s.len() - from,
{
    if from < 0 || from >= s.len() {
        s.len() as int
    } else if s[from] == c {
        from
    } else {
        first_index(s, c, from + 1)
    }
}

/// The first index is the one before which `c` does not stand and at which
/// it does, or the text ends.
pub proof fn lemma_first_index(s: Seq<char>, c: char, from: int, at: int)
    requires
        0 <= from <= at <= s.len(),
        forall|j: int| from <= j < at ==> s[j] != c,
        at < s.len() ==> s[at] == c,
    ensures
        first_index(s, c, from) == at,
    decreases at - from,
{
    if from < at {
        lemma_first_index(s, c, from + 1, at);
    }
}

/// The first index lies in the text or at its end, `c` stands there if it
/// lies in the text, and nowhere from `from` up to it.
pub proof fn lemma_first_index_is_first(s: Seq<char>, c: char, from: int)
    requires
        0 <= from <= s.len(),
    ensures
        from <= first_index(s, c, from) <= s.len(),
        first_index(s, c, from) < s.len() ==> s[first_index(s, c, from)] == c,
        forall|j: int| from <= j < first_index(s, c, from) ==> s[j] != c,
    decreases s.len() - from,
{
    if from < s.len() && s[from] != c {
        lemma_first_index_is_first(s, c, from + 1);
    }
}

/// The characters of a text.
pub fn chars_of(s: &str) -> (v: Vec<char>)
    ensures
        v@ == s@,
{
    let mut v: Vec<char> = Vec::new();
    for c in it: s.chars()
        invariant
            v@ == it.seq().take(it.index() as int),
            it.seq() == s@,
    {
        v.push(c);
    }
    v
}

/// Finds `c` in the characters `from..to` of a text. The result counts from
/// `from`; it is `to - from` where `c` does not stand in the range.
pub fn find(text: &Vec<char>, c: char, from: usize, to: usize) -> (at: usize)
    requires
        from <= to <= text.len(),
    ensures
        from <= at <= to,
        at - from == first_index(text@.subrange(from as int, to as int), c, 0),
{
    let ghost s = text@.subrange(from as int, to as int);
    let mut i: usize = from;
    while i < to
        invariant
            from <= i <= to <= text.len(),
            s == text@.subrange(from as int, to as int),
            forall|j: int| 0 <= j < i - from ==> s[j] != c,
        decreases to - i,
    {
        if text[i] == c {
            proof {
                assert(s[i - from] == c);
                lemma_first_index(s, c, 0, i - from);
            }
            return i;
        }
        assert(s[i - from] != c);
        i += 1;
    }
    proof {
        lemma_first_index(s, c, 0, to - from);
    }
    to
}

/// Whether the characters `from..to` of a text are those of `word`.
pub fn range_is(text: &Vec<char>, from: usize, to: usize, word: &str) -> (same: bool)
    requires
        from <= to <= text.len(),
    ensures
        same == (text@.subrange(from as int, to as int) == word@),
{
    let ghost s = text@.subrange(from as int, to as int);
    let w = chars_of(word);
    if w.len() != to - from {
        return false;
    }
    let mut i: usize = 0;
    while i < w.len()
        invariant
            from <= to <= text.len(),
            w.len() == to - from,
            w@ == word@,
            i <= w.len(),
            s == text@.subrange(from as int, to as int),
            forall|j: int| 0 <= j < i ==> s[j] == w@[j],
        decreases w.len() - i,
    {
        if text[from + i] != w[i] {
            assert(s[i as int] == text@[from + i]);
            assert(s[i as int] != word@[i as int]);
            return false;
        }
        i += 1;
    }
    assert(s =~= w@);
    true
}

/// Whether two texts are the same.
pub fn same_text(a: &str, b: &str) -> (same: bool)
    ensures
        same == (a@ == b@),
{
    let text = chars_of(a);
    assert(text@.subrange(0, text@.len() as int) =~= text@);
    range_is(&text, 0, text.len(), b)
}

} // verus!
