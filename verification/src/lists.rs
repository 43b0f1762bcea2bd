//! Searching a sequence for its first element with a property.

use vstd::prelude::*;

verus! {

/// The index of the first element of `s` that satisfies `p`.
pub open spec fn first_index<A>(s: Seq<A>, p: spec_fn(A) -> bool) -> Option<int>
    decreases s.len(),
{
    if s.len() == 0 {
        None
    } else if p(s[0]) {
        Some(0)
    } else {
        match first_index(s.drop_first(), p) {
            Some(i) => Some(i + 1),
            None => None,
        }
    }
}

/// `r` is where the first element satisfying `p` stands (`None`: nowhere).
pub open spec fn is_first_index<A>(s: Seq<A>, p: spec_fn(A) -> bool, r: Option<int>) -> bool {
    match r {
        Some(i) => 0 <= i < s.len() && p(s[i]) && forall|j: int| 0 <= j < i ==> !p(#[trigger] s[j]),
        None => forall|j: int| 0 <= j < s.len() ==> !p(#[trigger] s[j]),
    }
}

/// `first_index` finds the first element with the property, and only it.
pub proof fn lemma_first_index<A>(s: Seq<A>, p: spec_fn(A) -> bool, r: Option<int>)
    ensures
        is_first_index(s, p, r) <==> first_index(s, p) == r,
    decreases s.len(),
{
    if s.len() > 0 {
        let t = s.drop_first();
        lemma_first_index(t, p, first_index(t, p));
        assert(is_first_index(t, p, first_index(t, p)));
        assert forall|j: int| 0 <= j < t.len() implies t[j] == s[j + 1] by {}
        match r {
            Some(i) => {
                if i > 0 && is_first_index(s, p, r) {
                    lemma_first_index(t, p, Some(i - 1));
                    assert forall|j: int| 0 <= j < i - 1 implies !p(#[trigger] t[j]) by {
                        assert(!p(s[j + 1]));
                    }
                }
                if i > 0 && first_index(s, p) == r {
                    lemma_first_index(t, p, Some(i - 1));
                    assert forall|j: int| 0 <= j < i implies !p(#[trigger] s[j]) by {
                        if j > 0 {
                            assert(!p(t[j - 1]));
                        }
                    }
                }
            },
            None => {
                if is_first_index(s, p, r) {
                    lemma_first_index(t, p, None);
                    assert forall|j: int| 0 <= j < t.len() implies !p(#[trigger] t[j]) by {
                        assert(!p(s[j + 1]));
                    }
                }
                if first_index(s, p) == r {
                    lemma_first_index(t, p, None);
                    assert forall|j: int| 0 <= j < s.len() implies !p(#[trigger] s[j]) by {
                        if j > 0 {
                            assert(!p(t[j - 1]));
                        }
                    }
                }
            },
        }
    }
}

} // verus!
