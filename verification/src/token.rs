//! Case-insensitive matching of the short keywords that callers pass in:
//! operation names and policy modes.

use vstd::prelude::*;

verus! {

/// The lower-case form of an ASCII letter; any other character is itself.
pub open spec fn ascii_lower(c: char) -> char {
    if 'A' <= c && c <= 'Z' {
        ((c as u8) + 32) as char
    } else {
        c
    }
}

/// Whether `text` is `token` up to the case of its ASCII letters. `token` is
/// meant to be written in lower case.
pub open spec fn matches_token(text: Seq<char>, token: Seq<char>) -> bool {
    &&& text.len() == token.len()
    &&& forall|i: int| 0 <= i < text.len() ==> ascii_lower(#[trigger] text[i]) == token[i]
}

/// The lower-case form of an ASCII letter; any other character is returned
/// unchanged.
pub fn to_ascii_lower(c: char) -> (lowered: char)
    ensures
        lowered == ascii_lower(c),
{
    if 'A' <= c && c <= 'Z' {
        ((c as u8) + 32) as char
    } else {
        c
    }
}

/// Compares a text with a lower-case token, ignoring the case of ASCII
/// letters in the text.
pub fn eq_ignore_case(text: &str, token: &str) -> (same: bool)
    ensures
        same == matches_token(text@, token@),
{
    let n = token.unicode_len();
    if text.unicode_len() != n {
        return false;
    }
    let mut i: usize = 0;
    while i < n
        invariant
            i <= n,
            n == token@.len(),
            n == text@.len(),
            forall|j: int| 0 <= j < i ==> ascii_lower(#[trigger] text@[j]) == token@[j],
        decreases n - i,
    {
        if to_ascii_lower(text.get_char(i)) != token.get_char(i) {
            return false;
        }
        i += 1;
    }
    true
}

} // verus!
