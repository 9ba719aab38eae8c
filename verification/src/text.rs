//! Text validity for the wire boundary. The protocol carries host names,
//! user names, queries and remote function names as C strings, so text
//! with an embedded nul character cannot cross it and is rejected before
//! any foreign call is made.

use vstd::prelude::*;
use vstd::string::StrSliceExecFns;

verus! {

/// Whether the text contains an embedded nul character.
pub open spec fn has_nul(s: Seq<char>) -> bool {
    exists|i: int| 0 <= i < s.len() && s[i] == '\0'
}

/// Scan text for an embedded nul character.
pub fn str_has_nul(s: &str) -> (b: bool)
    ensures
        b == has_nul(s@),
{
    let n = s.unicode_len();
    let mut i: usize = 0;
    while i < n
        invariant
            n == s@.len(),
            i <= n,
            forall|j: int| 0 <= j < i ==> s@[j] != '\0',
        decreases n - i,
    {
        if s.get_char(i) == '\0' {
            return true;
        }
        i = i + 1;
    }
    false
}

} // verus!
