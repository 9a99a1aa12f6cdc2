//! Two questions asked of sequences throughout this crate: where the first
//! item of a kind stands, and what a sequence becomes when every item of it
//! has to pass a conversion.

use vstd::prelude::*;

verus! {

/// Whether `i` is the position of the first item of `s` that `p` accepts.
pub open spec fn is_first<A>(s: Seq<A>, p: spec_fn(A) -> bool, i: int) -> bool {
    &&& 0 <= i < s.len()
    &&& p(s[i])
    &&& forall|j: int| 0 <= j < i ==> !#[trigger] p(s[j])
}

/// The position of the first item of `s` that `p` accepts, if there is one.
pub open spec fn spec_first<A>(s: Seq<A>, p: spec_fn(A) -> bool) -> Option<int> {
    if exists|i: int| is_first(s, p, i) {
        Some(choose|i: int| is_first(s, p, i))
    } else {
        None
    }
}

/// A position that is seen to be the first is the one `spec_first` names.
pub proof fn lemma_first_found<A>(s: Seq<A>, p: spec_fn(A) -> bool, i: int)
    requires
        is_first(s, p, i),
    ensures
        spec_first(s, p) == Some(i),
{
    let k = choose|k: int| is_first(s, p, k);
    if k < i {
        assert(!p(s[k]));
    } else if i < k {
        assert(!p(s[i]));
    }
}

/// Where `p` accepts no item, `spec_first` names none.
pub proof fn lemma_first_absent<A>(s: Seq<A>, p: spec_fn(A) -> bool)
    requires
        forall|j: int| 0 <= j < s.len() ==> !#[trigger] p(s[j]),
    ensures
        spec_first(s, p) is None,
{
}

/// The items of `s`, each converted by `f`, where `f` converts every one of
/// them; `None` where it refuses any.
pub open spec fn spec_all<A, B>(s: Seq<A>, f: spec_fn(A) -> Option<B>) -> Option<Seq<B>> {
    if forall|i: int| 0 <= i < s.len() ==> (#[trigger] f(s[i])) is Some {
        Some(Seq::new(s.len(), |i: int| f(s[i])->0))
    } else {
        None
    }
}

} // verus!
