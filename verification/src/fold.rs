//! What a list contributes, element by element: the two forms in which the
//! contracts of the planner speak of a pass over a list.

use vstd::prelude::*;

verus! {

/// What an optional value holds, as a sequence.
pub open spec fn seq_of<A>(o: Option<A>) -> Seq<A> {
    match o {
        Some(a) => seq![a],
        None => Seq::empty(),
    }
}

/// What an optional value holds, as a set.
pub open spec fn set_of<A>(o: Option<A>) -> Set<A> {
    match o {
        Some(a) => set![a],
        None => Set::empty(),
    }
}

/// What the elements of `s` contribute, each by `f`, one after the other.
pub open spec fn collect_seq<A, B>(s: Seq<A>, f: spec_fn(A) -> Seq<B>) -> Seq<B>
    decreases s.len(),
{
    if s.len() == 0 {
        Seq::empty()
    } else {
        collect_seq(s.drop_last(), f) + f(s.last())
    }
}

/// What the elements of `s` contribute, each by `f`, taken together.
pub open spec fn union_over<A, B>(s: Seq<A>, f: spec_fn(A) -> Set<B>) -> Set<B>
    decreases s.len(),
{
    if s.len() == 0 {
        Set::empty()
    } else {
        union_over(s.drop_last(), f).union(f(s.last()))
    }
}

/// One more element adds what it contributes.
pub proof fn lemma_collect_step<A, B>(s: Seq<A>, f: spec_fn(A) -> Seq<B>, k: int)
    requires
        0 <= k < s.len(),
    ensures
        collect_seq(s.take(k + 1), f) == collect_seq(s.take(k), f) + f(s[k]),
{
    assert(s.take(k + 1).drop_last() =~= s.take(k));
    assert(s.take(k + 1).last() == s[k]);
}

/// One more element adds what it contributes.
pub proof fn lemma_union_step<A, B>(s: Seq<A>, f: spec_fn(A) -> Set<B>, k: int)
    requires
        0 <= k < s.len(),
    ensures
        union_over(s.take(k + 1), f) == union_over(s.take(k), f).union(f(s[k])),
{
    assert(s.take(k + 1).drop_last() =~= s.take(k));
    assert(s.take(k + 1).last() == s[k]);
}

/// Something is in `union_over` exactly when some element contributes it.
pub proof fn lemma_union_over_contains<A, B>(s: Seq<A>, f: spec_fn(A) -> Set<B>, b: B)
    ensures
        union_over(s, f).contains(b) <==> exists|k: int|
            0 <= k < s.len() && f(#[trigger] s[k]).contains(b),
    decreases s.len(),
{
    if s.len() > 0 {
        lemma_union_over_contains(s.drop_last(), f, b);
        if union_over(s, f).contains(b) {
            if f(s.last()).contains(b) {
                assert(f(s[s.len() - 1]).contains(b));
            } else {
                let k = choose|k: int|
                    0 <= k < s.drop_last().len() && f(#[trigger] s.drop_last()[k]).contains(b);
                assert(f(s[k]).contains(b));
            }
        }
        if exists|k: int| 0 <= k < s.len() && f(#[trigger] s[k]).contains(b) {
            let k = choose|k: int| 0 <= k < s.len() && f(#[trigger] s[k]).contains(b);
            if k < s.len() - 1 {
                assert(f(s.drop_last()[k]).contains(b));
            }
        }
    }
}

/// Something is in `collect_seq` exactly when some element contributes it.
pub proof fn lemma_collect_seq_contains<A, B>(s: Seq<A>, f: spec_fn(A) -> Seq<B>, b: B)
    ensures
        collect_seq(s, f).contains(b) <==> exists|k: int|
            0 <= k < s.len() && f(#[trigger] s[k]).contains(b),
    decreases s.len(),
{
    if s.len() > 0 {
        lemma_collect_seq_contains(s.drop_last(), f, b);
        let init = collect_seq(s.drop_last(), f);
        let tail = f(s.last());
        if collect_seq(s, f).contains(b) {
            let i = choose|i: int| 0 <= i < (init + tail).len() && (init + tail)[i] == b;
            if i < init.len() {
                assert(init[i] == b);
                let k = choose|k: int|
                    0 <= k < s.drop_last().len() && f(#[trigger] s.drop_last()[k]).contains(b);
                assert(f(s[k]).contains(b));
            } else {
                assert(tail[i - init.len()] == b);
                assert(f(s[s.len() - 1]).contains(b));
            }
        }
        if exists|k: int| 0 <= k < s.len() && f(#[trigger] s[k]).contains(b) {
            let k = choose|k: int| 0 <= k < s.len() && f(#[trigger] s[k]).contains(b);
            if k < s.len() - 1 {
                assert(f(s.drop_last()[k]).contains(b));
                let i = choose|i: int| 0 <= i < init.len() && init[i] == b;
                assert((init + tail)[i] == b);
            } else {
                let i = choose|i: int| 0 <= i < tail.len() && tail[i] == b;
                assert((init + tail)[init.len() + i] == b);
            }
        }
    }
}

/// The position of the first element of `s` that `p` holds of.
pub open spec fn first_index<A>(s: Seq<A>, p: spec_fn(A) -> bool) -> Option<int>
    decreases s.len(),
{
    if s.len() == 0 {
        None
    } else {
        match first_index(s.drop_last(), p) {
            Some(k) => Some(k),
            None => if p(s.last()) {
                Some(s.len() - 1)
            } else {
                None
            },
        }
    }
}

/// The position of the last element of `s` that `p` holds of.
pub open spec fn last_index<A>(s: Seq<A>, p: spec_fn(A) -> bool) -> Option<int>
    decreases s.len(),
{
    if s.len() == 0 {
        None
    } else if p(s.last()) {
        Some(s.len() - 1)
    } else {
        last_index(s.drop_last(), p)
    }
}

/// `first_index` finds `k` where `p` holds at `k` and nowhere before, and
/// nothing where `p` holds nowhere.
pub proof fn lemma_first_index<A>(s: Seq<A>, p: spec_fn(A) -> bool, k: int)
    ensures
        0 <= k < s.len() && p(s[k]) && (forall|j: int| 0 <= j < k ==> !p(#[trigger] s[j]))
            ==> first_index(s, p) == Some(k),
        (forall|j: int| 0 <= j < s.len() ==> !p(#[trigger] s[j])) ==> first_index(s, p) is None,
    decreases s.len(),
{
    if s.len() > 0 {
        lemma_first_index(s.drop_last(), p, k);
        if 0 <= k < s.len() && p(s[k]) && (forall|j: int| 0 <= j < k ==> !p(#[trigger] s[j])) {
            if k < s.len() - 1 {
                assert(s.drop_last()[k] == s[k]);
                assert forall|j: int| 0 <= j < k implies !p(#[trigger] s.drop_last()[j]) by {
                    assert(s.drop_last()[j] == s[j]);
                }
            } else {
                assert forall|j: int| 0 <= j < s.drop_last().len() implies !p(
                    #[trigger] s.drop_last()[j],
                ) by {
                    assert(s.drop_last()[j] == s[j]);
                }
                lemma_first_index(s.drop_last(), p, 0);
            }
        }
        if forall|j: int| 0 <= j < s.len() ==> !p(#[trigger] s[j]) {
            assert forall|j: int| 0 <= j < s.drop_last().len() implies !p(
                #[trigger] s.drop_last()[j],
            ) by {
                assert(s.drop_last()[j] == s[j]);
            }
            assert(!p(s[s.len() - 1]));
        }
    }
}

/// `last_index` finds `k` where `p` holds at `k` and nowhere after, and
/// nothing where `p` holds nowhere.
pub proof fn lemma_last_index<A>(s: Seq<A>, p: spec_fn(A) -> bool, k: int)
    ensures
        0 <= k < s.len() && p(s[k]) && (forall|j: int| k < j < s.len() ==> !p(#[trigger] s[j]))
            ==> last_index(s, p) == Some(k),
        (forall|j: int| 0 <= j < s.len() ==> !p(#[trigger] s[j])) ==> last_index(s, p) is None,
    decreases s.len(),
{
    if s.len() > 0 {
        lemma_last_index(s.drop_last(), p, k);
        if 0 <= k < s.len() && p(s[k]) && (forall|j: int| k < j < s.len() ==> !p(#[trigger] s[j])) {
            if k < s.len() - 1 {
                assert(!p(s[s.len() - 1]));
                assert(s.drop_last()[k] == s[k]);
                assert forall|j: int| k < j < s.drop_last().len() implies !p(
                    #[trigger] s.drop_last()[j],
                ) by {
                    assert(s.drop_last()[j] == s[j]);
                }
            }
        }
        if forall|j: int| 0 <= j < s.len() ==> !p(#[trigger] s[j]) {
            assert(!p(s[s.len() - 1]));
            assert forall|j: int| 0 <= j < s.drop_last().len() implies !p(
                #[trigger] s.drop_last()[j],
            ) by {
                assert(s.drop_last()[j] == s[j]);
            }
        }
    }
}

/// What `first_index` finds is a position at which `p` holds.
pub proof fn lemma_first_index_found<A>(s: Seq<A>, p: spec_fn(A) -> bool)
    ensures
        first_index(s, p) matches Some(k) ==> 0 <= k < s.len() && p(s[k]),
    decreases s.len(),
{
    if s.len() > 0 {
        lemma_first_index_found(s.drop_last(), p);
        match first_index(s.drop_last(), p) {
            Some(k) => {
                assert(s.drop_last()[k] == s[k]);
            },
            None => {},
        }
    }
}

} // verus!
