//! Bundle identifiers: reverse-DNS strings over ASCII letters, digits, `.`
//! and `-`.

use vstd::prelude::*;

verus! {

/// A character that may stand in a bundle identifier.
pub open spec fn is_identifier_char(c: char) -> bool {
    ('a' <= c && c <= 'z') || ('A' <= c && c <= 'Z') || ('0' <= c && c <= '9') || c == '.' || c
        == '-'
}

/// A valid bundle identifier: non-empty, and made only of identifier
/// characters.
pub open spec fn is_valid_identifier(s: Seq<char>) -> bool {
    s.len() > 0 && forall|i: int| 0 <= i < s.len() ==> #[trigger] is_identifier_char(s[i])
}

fn identifier_char(c: char) -> (r: bool)
    ensures
        r == is_identifier_char(c),
{
    ('a' <= c && c <= 'z') || ('A' <= c && c <= 'Z') || ('0' <= c && c <= '9') || c == '.' || c
        == '-'
}

/// Whether `s` can serve as a bundle identifier.
pub fn valid_identifier(s: &str) -> (r: bool)
    ensures
        r == is_valid_identifier(s@),
{
    let n = s.unicode_len();
    if n == 0 {
        return false;
    }
    let mut i: usize = 0;
    while i < n
        invariant
            n == s@.len(),
            i <= n,
            forall|j: int| 0 <= j < i ==> #[trigger] is_identifier_char(s@[j]),
        decreases n - i,
    {
        if !identifier_char(s.get_char(i)) {
            return false;
        }
        i = i + 1;
    }
    true
}

} // verus!
