//! Finding the first entry of a sequence that meets a condition.

use vstd::prelude::*;

verus! {

/// The index of the first entry of `s` of which `wanted` holds, if there is
/// one.
pub open spec fn first_index<A>(s: Seq<A>, wanted: spec_fn(A) -> bool) -> Option<int>
    decreases s.len(),
{
    if s.len() == 0 {
        None
    } else if wanted(s[0]) {
        Some(0)
    } else {
        match first_index(s.skip(1), wanted) {
            Some(i) => Some(i + 1),
            None => None,
        }
    }
}

/// True when `i` is an index of `s` of which `wanted` holds, and `wanted`
/// holds of no entry before it.
pub open spec fn is_first<A>(s: Seq<A>, wanted: spec_fn(A) -> bool, i: int) -> bool {
    &&& 0 <= i < s.len()
    &&& wanted(s[i])
    &&& forall|j: int| 0 <= j < i ==> !wanted(#[trigger] s[j])
}

/// [`first_index`] returns the one index that [`is_first`], and `None`
/// exactly when the condition holds of no entry.
pub proof fn lemma_first_index<A>(s: Seq<A>, wanted: spec_fn(A) -> bool)
    ensures
        match first_index(s, wanted) {
            Some(i) => is_first(s, wanted, i),
            None => forall|j: int| 0 <= j < s.len() ==> !wanted(#[trigger] s[j]),
        },
    decreases s.len(),
{
    if s.len() > 0 && !wanted(s[0]) {
        let rest = s.skip(1);
        lemma_first_index(rest, wanted);
        match first_index(rest, wanted) {
            Some(i) => {
                assert forall|j: int| 0 <= j < i + 1 implies !wanted(#[trigger] s[j]) by {
                    if j > 0 {
                        assert(s[j] == rest[j - 1]);
                    }
                }
                assert(s[i + 1] == rest[i]);
            },
            None => {
                assert forall|j: int| 0 <= j < s.len() implies !wanted(#[trigger] s[j]) by {
                    if j > 0 {
                        assert(s[j] == rest[j - 1]);
                    }
                }
            },
        }
    }
}

/// An index that [`is_first`] is the one that [`first_index`] returns.
pub proof fn lemma_is_first_unique<A>(s: Seq<A>, wanted: spec_fn(A) -> bool, i: int)
    requires
        is_first(s, wanted, i),
    ensures
        first_index(s, wanted) == Some(i),
{
    lemma_first_index(s, wanted);
}

} // verus!
