//! Comparing and building strings character by character.
use vstd::prelude::*;

verus! {

/// Whether two strings hold the same characters.
pub fn str_eq(a: &str, b: &str) -> (res: bool)
    ensures
        res == (a@ == b@),
{
    let n = a.unicode_len();
    let m = b.unicode_len();
    if n != m {
        return false;
    }
    let mut i: usize = 0;
    while i < n
        invariant
            i <= n,
            n == a@.len(),
            n == b@.len(),
            forall|j: int| 0 <= j < i ==> a@[j] == b@[j],
        decreases n - i,
    {
        if a.get_char(i) != b.get_char(i) {
            return false;
        }
        i = i + 1;
    }
    assert(a@ =~= b@);
    true
}

/// Whether the characters of `s` from position `start` on are those of
/// `word` (`s_len` is the number of characters of `s`).
pub fn rest_is(s: &str, s_len: usize, start: usize, word: &str) -> (res: bool)
    requires
        s_len == s@.len(),
        start <= s_len,
    ensures
        res == (s@.skip(start as int) == word@),
{
    let n = word.unicode_len();
    if s_len - start != n {
        assert(s@.skip(start as int).len() != word@.len());
        return false;
    }
    let mut i: usize = 0;
    while i < n
        invariant
            i <= n,
            n == word@.len(),
            s_len == s@.len(),
            start + n == s_len,
            forall|j: int| 0 <= j < i ==> s@[start + j] == word@[j],
        decreases n - i,
    {
        if s.get_char(start + i) != word.get_char(i) {
            assert(s@.skip(start as int)[i as int] != word@[i as int]);
            return false;
        }
        i = i + 1;
    }
    assert(s@.skip(start as int) =~= word@);
    true
}

/// Whether `s` begins with the characters of `word` (`s_len` is the number
/// of characters of `s`).
pub fn starts_with(s: &str, s_len: usize, word: &str) -> (res: bool)
    requires
        s_len == s@.len(),
    ensures
        res == (word@.len() <= s@.len() && s@.take(word@.len() as int) == word@),
{
    let n = word.unicode_len();
    if s_len < n {
        return false;
    }
    let mut i: usize = 0;
    while i < n
        invariant
            i <= n,
            n == word@.len(),
            n <= s_len,
            s_len == s@.len(),
            forall|j: int| 0 <= j < i ==> s@[j] == word@[j],
        decreases n - i,
    {
        if s.get_char(i) != word.get_char(i) {
            assert(s@.take(n as int)[i as int] != word@[i as int]);
            return false;
        }
        i = i + 1;
    }
    assert(s@.take(n as int) =~= word@);
    true
}

/// `String::push`: appends the character `c` to `s`.
#[verifier::external_body]
pub(crate) fn push_char(s: &mut String, c: char)
    ensures
        final(s)@ == old(s)@.push(c),
{
    s.push(c)
}

} // verus!
