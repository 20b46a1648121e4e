//! Character-level string helpers shared by the pattern and engine modules.

use vstd::prelude::*;

verus! {

/// Relies on String::push: appends exactly one character at the end.
#[verifier::external_body]
pub fn push_char(s: &mut String, c: char)
    ensures
        final(s)@ == old(s)@.push(c),
{
    s.push(c)
}

/// Character-wise equality of two string slices.
pub fn str_eq(a: &str, b: &str) -> (r: bool)
    ensures
        r == (a@ == b@),
{
    let alen = a.unicode_len();
    let blen = b.unicode_len();
    if alen != blen {
        return false;
    }
    let mut i: usize = 0;
    while i < alen
        invariant
            alen == a@.len(),
            blen == b@.len(),
            alen == blen,
            i <= alen,
            forall|j: int| 0 <= j < i ==> a@[j] == b@[j],
        decreases alen - i,
    {
        if a.get_char(i) != b.get_char(i) {
            return false;
        }
        i = i + 1;
    }
    proof {
        assert(a@ =~= b@);
    }
    true
}

/// Equality of a `String` against a string slice, character-wise.
pub fn string_eq_str(a: &String, b: &str) -> (r: bool)
    ensures
        r == (a@ == b@),
{
    str_eq(a.as_str(), b)
}

/// Whether a sequence of characters begins with the given character.
pub open spec fn starts_with_char(s: Seq<char>, c: char) -> bool {
    s.len() > 0 && s[0] == c
}

/// Whether a sequence of characters ends with the given character.
pub open spec fn ends_with_char(s: Seq<char>, c: char) -> bool {
    s.len() > 0 && s[s.len() - 1] == c
}

/// Whether the string begins with the given character.
pub fn first_char_is(s: &String, c: char) -> (r: bool)
    ensures
        r == starts_with_char(s@, c),
{
    if s.unicode_len() == 0 {
        false
    } else {
        s.as_str().get_char(0) == c
    }
}

/// Whether the string ends with the given character.
pub fn last_char_is(s: &String, c: char) -> (r: bool)
    ensures
        r == ends_with_char(s@, c),
{
    let n = s.unicode_len();
    if n == 0 {
        false
    } else {
        s.as_str().get_char(n - 1) == c
    }
}

/// Whether `a` begins with the characters of `pat`.
pub fn str_prefix_at(a: &str, pat: &str) -> (r: bool)
    ensures
        r == (pat@.len() <= a@.len() && a@.subrange(0, pat@.len() as int) == pat@),
{
    let alen = a.unicode_len();
    let plen = pat.unicode_len();
    if plen > alen {
        return false;
    }
    let mut j: usize = 0;
    while j < plen
        invariant
            plen <= alen,
            alen == a@.len(),
            plen == pat@.len(),
            j <= plen,
            forall|k: int| 0 <= k < j ==> a@[k] == pat@[k],
        decreases plen - j,
    {
        if a.get_char(j) != pat.get_char(j) {
            proof {
                assert(a@.subrange(0, plen as int)[j as int] == a@[j as int]);
            }
            return false;
        }
        j = j + 1;
    }
    proof {
        assert(a@.subrange(0, plen as int) =~= pat@);
    }
    true
}

/// The concatenation `a + b` as a fresh string.
pub fn concat_str(a: &str, b: &str) -> (r: String)
    ensures
        r@ == a@ + b@,
{
    let mut r = a.to_owned();
    r.append(b);
    r
}

/// The string without its first character (the string itself when empty).
pub fn drop_first_char(s: &String) -> (r: String)
    ensures
        s@.len() > 0 ==> r@ == s@.skip(1),
        s@.len() == 0 ==> r@ == s@,
{
    let n = s.unicode_len();
    if n == 0 {
        s.clone()
    } else {
        let r = s.as_str().substring_char(1, n).to_owned();
        proof {
            assert(r@ =~= s@.skip(1));
        }
        r
    }
}

} // verus!
