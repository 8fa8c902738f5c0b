//! Properties of names: letter case and lexicographic order.

use vstd::prelude::*;

verus! {

/// Whether `c` is one of the lowercase letters `a` to `z`.
pub open spec fn is_lowercase_letter(c: char) -> bool {
    'a' <= c && c <= 'z'
}

/// Whether `s` is made of lowercase letters only.
pub open spec fn is_lowercase(s: Seq<char>) -> bool {
    forall|i: int| 0 <= i < s.len() ==> is_lowercase_letter(#[trigger] s[i])
}

/// The character `c` with the case of an ASCII letter folded to lowercase.
pub open spec fn fold_char(c: char) -> char {
    if 'A' <= c && c <= 'Z' {
        ((c as u32) + 32) as char
    } else {
        c
    }
}

/// The name `s` with the case of its ASCII letters folded to lowercase.
pub open spec fn fold_case(s: Seq<char>) -> Seq<char> {
    Seq::new(s.len(), |i: int| fold_char(s[i]))
}

/// Whether `a` and `b` agree on their first `k` characters and `a` comes
/// first at position `k`: either `a` ends there and `b` goes on, or
/// `a` holds the smaller character.
pub open spec fn precedes_at(a: Seq<char>, b: Seq<char>, k: int) -> bool {
    &&& 0 <= k <= a.len()
    &&& k < b.len()
    &&& forall|i: int| 0 <= i < k ==> a[i] == b[i]
    &&& k < a.len() ==> a[k] < b[k]
}

/// Whether `a` comes strictly before `b` in lexicographic order.
pub open spec fn precedes(a: Seq<char>, b: Seq<char>) -> bool {
    exists|k: int| precedes_at(a, b, k)
}

/// Folding the case of a lowercase name leaves it unchanged.
pub proof fn lemma_fold_case_of_lowercase(s: Seq<char>)
    requires
        is_lowercase(s),
    ensures
        fold_case(s) == s,
{
    assert(fold_case(s) =~= s);
}

} // verus!
