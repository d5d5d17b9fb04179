//! Identifier validation: the sole check applied to a requested username is
//! that it does not contain the path-escape sequence `../` anywhere.

use vstd::prelude::*;

use crate::errors::ResolveError;

verus! {

/// The three characters `../` occur in `s` starting at position `i`.
pub open spec fn traversal_at(s: Seq<char>, i: int) -> bool {
    &&& 0 <= i
    &&& i + 3 <= s.len()
    &&& s[i] == '.'
    &&& s[i + 1] == '.'
    &&& s[i + 2] == '/'
}

/// `s` contains the substring `../` somewhere.
pub open spec fn contains_traversal(s: Seq<char>) -> bool {
    exists|i: int| traversal_at(s, i)
}

/// Scans `s` for the substring `../`.
pub fn contains_traversal_check(s: &str) -> (r: bool)
    ensures
        r == contains_traversal(s@),
{
    let n: usize = s.unicode_len();
    if n < 3 {
        assert forall|j: int| !traversal_at(s@, j) by {}
        return false;
    }
    let mut i: usize = 0;
    while i <= n - 3
        invariant
            n == s@.len(),
            3 <= n,
            i <= n,
            forall|j: int| 0 <= j < i ==> !traversal_at(s@, j),
        decreases n - i,
    {
        let c0 = s.get_char(i);
        let c1 = s.get_char(i + 1);
        let c2 = s.get_char(i + 2);
        if c0 == '.' && c1 == '.' && c2 == '/' {
            assert(traversal_at(s@, i as int));
            return true;
        }
        i = i + 1;
    }
    assert forall|j: int| !traversal_at(s@, j) by {
        if 0 <= j && j + 3 <= s@.len() {
            assert(j < i);
        }
    }
    false
}

/// Accepts a username unless it contains `../`, in which case the request is
/// rejected before any filesystem or network work. An accepted username is
/// passed through unchanged: no normalization or encoding happens here.
pub fn validate<'a>(username: &'a str) -> (r: Result<&'a str, ResolveError>)
    ensures
        r is Ok <==> !contains_traversal(username@),
        r matches Ok(v) ==> v@ == username@,
        r matches Err(e) ==> e is RejectedIdentifier,
{
    if contains_traversal_check(username) {
        Err(ResolveError::RejectedIdentifier)
    } else {
        Ok(username)
    }
}

} // verus!
