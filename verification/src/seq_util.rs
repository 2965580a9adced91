//! First-match search over a sequence, shared by the store's lookups.

use vstd::prelude::*;

verus! {

/// Index of the first element of `s` satisfying `p`, or -1 when none
/// does.
pub open spec fn first_match<T>(s: Seq<T>, p: spec_fn(T) -> bool) -> int
    decreases s.len(),
{
    if s.len() == 0 {
        -1
    } else if p(s[0]) {
        0
    } else {
        let rest = first_match(s.skip(1), p);
        if rest == -1 {
            -1
        } else {
            rest + 1
        }
    }
}

/// `first_match` returns -1 exactly when no element matches; otherwise
/// it returns the first matching index.
pub proof fn lemma_first_match<T>(s: Seq<T>, p: spec_fn(T) -> bool)
    ensures
        first_match(s, p) == -1 ==> forall|i: int| 0 <= i < s.len() ==> !p(#[trigger] s[i]),
        first_match(s, p) != -1 ==> {
            let i = first_match(s, p);
            &&& 0 <= i < s.len()
            &&& p(s[i])
            &&& forall|j: int| 0 <= j < i ==> !p(#[trigger] s[j])
        },
    decreases s.len(),
{
    if s.len() > 0 && !p(s[0]) {
        lemma_first_match(s.skip(1), p);
        assert forall|i: int| 1 <= i < s.len() implies s.skip(1)[i - 1] == s[i] by {}
    }
}

} // verus!
