use vstd::prelude::*;
use vstd::string::StrSliceExecFns;

verus! {

/// The text is nonempty and every character is ASCII.
pub open spec fn nonempty_ascii(s: Seq<char>) -> bool {
    s.len() > 0 && vstd::utf8::is_ascii_chars(s)
}

/// The text contains a NUL character.
pub open spec fn has_nul(s: Seq<char>) -> bool {
    exists|i: int| 0 <= i < s.len() && s[i] == '\0'
}

/// Returns whether the text is nonempty ASCII.
pub fn is_nonempty_ascii(s: &str) -> (b: bool)
    ensures
        b == nonempty_ascii(s@),
{
    !s.is_empty() && s.is_ascii()
}

/// Returns whether the text contains a NUL character.
pub fn contains_nul(s: &str) -> (b: bool)
    ensures
        b == has_nul(s@),
{
    let n = s.unicode_len();
    let mut i: usize = 0;
    while i < n
        invariant
            n == s@.len(),
            0 <= i <= n,
            forall|j: int| 0 <= j < i ==> s@[j] != '\0',
        decreases n - i,
    {
        if s.get_char(i) == '\0' {
            return true;
        }
        i += 1;
    }
    false
}

} // verus!
