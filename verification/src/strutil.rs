//! Verified string helpers: equality, suffix tests, and character-level
//! assembly of new strings.

use vstd::prelude::*;
use vstd::string::StrSliceExecFns;

verus! {

/// `suffix` is a suffix of `s`.
pub open spec fn seq_ends_with(s: Seq<char>, suffix: Seq<char>) -> bool {
    suffix.len() <= s.len() && s.skip(s.len() - suffix.len()) =~= suffix
}

/// Character-by-character string equality.
pub fn str_eq(a: &str, b: &str) -> (r: bool)
    ensures
        r == (a@ == b@),
{
    let a_len = a.unicode_len();
    let b_len = b.unicode_len();
    if a_len != b_len {
        assert(a@ != b@) by {
            assert(a@.len() != b@.len());
        }
        return false;
    }
    let mut i: usize = 0;
    while i < a_len
        invariant
            a_len == a@.len(),
            a@.len() == b@.len(),
            i <= a_len,
            forall|j: int| 0 <= j < i ==> a@[j] == b@[j],
        decreases a_len - i,
    {
        if a.get_char(i) != b.get_char(i) {
            return false;
        }
        i = i + 1;
    }
    assert(a@ =~= b@);
    true
}

/// Whether `s` ends with `suffix`, character for character.
pub fn str_ends_with(s: &str, suffix: &str) -> (r: bool)
    ensures
        r == seq_ends_with(s@, suffix@),
{
    let s_len = s.unicode_len();
    let suffix_len = suffix.unicode_len();
    if suffix_len > s_len {
        return false;
    }
    let offset = s_len - suffix_len;
    let mut i: usize = 0;
    while i < suffix_len
        invariant
            s_len == s@.len(),
            suffix_len == suffix@.len(),
            suffix_len <= s_len,
            offset == s_len - suffix_len,
            i <= suffix_len,
            forall|j: int| 0 <= j < i ==> s@[offset + j] == suffix@[j],
        decreases suffix_len - i,
    {
        if s.get_char(offset + i) != suffix.get_char(i) {
            assert(s@.skip(s@.len() - suffix@.len())[i as int] != suffix@[i as int]);
            return false;
        }
        i = i + 1;
    }
    assert(s@.skip(s@.len() - suffix@.len()) =~= suffix@);
    true
}

/// Relies on `core::iter::Iterator::collect` for `String`: collecting `char`s
/// concatenates them in order.
#[verifier::external_body]
pub fn chars_to_string(chars: &Vec<char>) -> (r: String)
    ensures
        r@ == chars@,
{
    chars.iter().collect()
}

} // verus!
