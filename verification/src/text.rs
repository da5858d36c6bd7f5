//! String helpers for the matcher: character-exact equality and optional
//! prefix stripping, both verified against sequence-level specifications.

use vstd::prelude::*;

verus! {

/// What stripping `prefix` from `path` means: if `prefix` is a literal
/// leading prefix of `path`, the remainder after it; otherwise `path`
/// unchanged (stripping is strictly optional, never a filter).
pub open spec fn strip_prefix_spec(path: Seq<char>, prefix: Seq<char>) -> Seq<char> {
    if prefix.len() <= path.len() && path.subrange(0, prefix.len() as int) == prefix {
        path.subrange(prefix.len() as int, path.len() as int)
    } else {
        path
    }
}

/// Character-by-character string equality, equivalent to equality of views.
pub fn str_eq(a: &str, b: &str) -> (r: bool)
    ensures
        r == (a@ == b@),
{
    let a_len = a.unicode_len();
    let b_len = b.unicode_len();
    if a_len != b_len {
        return false;
    }
    let mut i: usize = 0;
    while i < a_len
        invariant
            i <= a_len,
            a_len == a@.len(),
            b_len == b@.len(),
            a_len == b_len,
            forall|j: int| 0 <= j < i ==> a@[j] == b@[j],
        decreases a_len - i,
    {
        if a.get_char(i) != b.get_char(i) {
            return false;
        }
        i = i + 1;
    }
    proof {
        assert(a@ =~= b@);
    }
    true
}

/// Strips `prefix` from the front of `path` when it is literally present;
/// otherwise returns `path` unchanged.
pub fn strip_prefix_once<'a>(path: &'a str, prefix: &str) -> (r: &'a str)
    ensures
        r@ == strip_prefix_spec(path@, prefix@),
{
    let p_len = prefix.unicode_len();
    let len = path.unicode_len();
    if p_len > len {
        return path;
    }
    let mut i: usize = 0;
    while i < p_len
        invariant
            i <= p_len,
            p_len == prefix@.len(),
            len == path@.len(),
            p_len <= len,
            forall|j: int| 0 <= j < i ==> path@[j] == prefix@[j],
        decreases p_len - i,
    {
        if path.get_char(i) != prefix.get_char(i) {
            proof {
                assert(path@.subrange(0, p_len as int)[i as int] == path@[i as int]);
            }
            return path;
        }
        i = i + 1;
    }
    proof {
        assert(path@.subrange(0, p_len as int) =~= prefix@);
    }
    path.substring_char(p_len, len)
}

} // verus!
