//! Searching in strings, stated over their sequences of characters.

use vstd::prelude::*;
use vstd::string::*;

verus! {

/// `pattern` stands in `text` from position `at` on.
pub open spec fn occurs_at(text: Seq<char>, pattern: Seq<char>, at: int) -> bool {
    &&& 0 <= at
    &&& at + pattern.len() <= text.len()
    &&& text.subrange(at, at + pattern.len()) == pattern
}

/// `pattern` stands somewhere in `text`.
pub open spec fn contains_text(text: Seq<char>, pattern: Seq<char>) -> bool {
    exists|at: int| occurs_at(text, pattern, at)
}

/// The characters of a string, one by one.
pub fn chars_of(s: &str) -> (out: Vec<char>)
    ensures
        out@ == s@,
{
    let n: usize = s.unicode_len();
    let mut out: Vec<char> = Vec::new();
    let mut i: usize = 0;
    while i < n
        invariant
            n == s@.len(),
            i <= n,
            out@ == s@.subrange(0, i as int),
        decreases n - i,
    {
        out.push(s.get_char(i));
        i += 1;
        assert(out@ =~= s@.subrange(0, i as int));
    }
    assert(s@.subrange(0, n as int) =~= s@);
    out
}

/// Whether `pattern` stands in `text` from position `at` on.
pub fn matches_at(text: &Vec<char>, pattern: &Vec<char>, at: usize) -> (found: bool)
    requires
        at + pattern@.len() <= text@.len(),
    ensures
        found == occurs_at(text@, pattern@, at as int),
{
    let m: usize = pattern.len();
    let n: usize = text.len();
    let mut k: usize = 0;
    while k < m
        invariant
            m == pattern@.len(),
            n == text@.len(),
            at + m <= n,
            k <= m,
            forall|j: int| 0 <= j < k ==> text@[at + j] == pattern@[j],
        decreases m - k,
    {
        if text[at + k] != pattern[k] {
            assert(text@.subrange(at as int, at + m)[k as int] != pattern@[k as int]);
            return false;
        }
        k += 1;
    }
    assert(text@.subrange(at as int, at + m) =~= pattern@);
    true
}

/// Whether `pattern` stands somewhere in `text`.
pub fn contains(text: &str, pattern: &str) -> (found: bool)
    ensures
        found == contains_text(text@, pattern@),
{
    let t: Vec<char> = chars_of(text);
    let p: Vec<char> = chars_of(pattern);
    if p.len() > t.len() {
        return false;
    }
    let last: usize = t.len() - p.len();
    let mut i: usize = 0;
    while i < last
        invariant
            last == t@.len() - p@.len(),
            i <= last,
            t@ == text@,
            p@ == pattern@,
            forall|at: int| 0 <= at < i ==> !occurs_at(t@, p@, at),
        decreases last - i,
    {
        if matches_at(&t, &p, i) {
            return true;
        }
        i += 1;
    }
    matches_at(&t, &p, last)
}

/// Whether the character `wanted` stands somewhere in `text`.
pub fn contains_char(text: &str, wanted: char) -> (found: bool)
    ensures
        found == text@.contains(wanted),
{
    let t: Vec<char> = chars_of(text);
    let mut i: usize = 0;
    while i < t.len()
        invariant
            t@ == text@,
            i <= t@.len(),
            forall|j: int| 0 <= j < i ==> t@[j] != wanted,
        decreases t@.len() - i,
    {
        if t[i] == wanted {
            return true;
        }
        i += 1;
    }
    false
}

} // verus!
