//! Principal identifier validation.
//!
//! A principal is an external identity distinguished by a unique string
//! identifier. A well-formed identifier is 2 to 64 characters drawn from
//! lower-case letters, digits and the separators `-`, `_` and `.`, where a
//! separator neither starts nor ends the identifier and two separators never
//! stand next to each other.

use vstd::prelude::*;

verus! {

/// Whether `c` is one of the three separator characters.
pub open spec fn is_separator_char(c: char) -> bool {
    c == '-' || c == '_' || c == '.'
}

/// Whether `c` may occur in a principal identifier.
pub open spec fn valid_principal_char(c: char) -> bool {
    ('a' <= c && c <= 'z') || ('0' <= c && c <= '9') || is_separator_char(c)
}

/// Whether `s` is a well-formed principal identifier.
pub open spec fn valid_principal(s: Seq<char>) -> bool {
    &&& 2 <= s.len() <= 64
    &&& forall|i: int| 0 <= i < s.len() ==> valid_principal_char(#[trigger] s[i])
    &&& !is_separator_char(s[0])
    &&& !is_separator_char(s[s.len() - 1])
    &&& forall|i: int| 1 <= i < s.len() ==> !(is_separator_char(#[trigger] s[i])
        && is_separator_char(s[i - 1]))
}

/// Decides whether the candidate identifier is well formed.
pub fn is_valid_principal(s: &str) -> (r: bool)
    ensures
        r == valid_principal(s@),
{
    let n = s.unicode_len();
    if n < 2 || n > 64 {
        return false;
    }
    let mut i: usize = 0;
    while i < n
        invariant
            2 <= n <= 64,
            n == s@.len(),
            i <= n,
            forall|j: int| 0 <= j < i ==> valid_principal_char(#[trigger] s@[j]),
            i > 0 ==> !is_separator_char(s@[0]),
            forall|j: int| 0 <= j < i && j + 1 == n ==> !is_separator_char(#[trigger] s@[j]),
            forall|j: int| 1 <= j < i ==> !(is_separator_char(#[trigger] s@[j])
                && is_separator_char(s@[j - 1])),
        decreases n - i,
    {
        let c = s.get_char(i);
        let lower = 'a' <= c && c <= 'z';
        let digit = '0' <= c && c <= '9';
        let separator = c == '-' || c == '_' || c == '.';
        if !(lower || digit || separator) {
            return false;
        }
        if separator {
            if i == 0 || i + 1 == n {
                return false;
            }
            let prev = s.get_char(i - 1);
            if prev == '-' || prev == '_' || prev == '.' {
                return false;
            }
        }
        i = i + 1;
    }
    true
}

} // verus!
