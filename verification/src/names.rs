//! Lists of attribute names: the record of what a description of an entity
//! explicitly set.

use vstd::prelude::*;
use crate::text::{Text, str_eq};

verus! {

/// `a` followed by those names of `b` that are not yet present, in the order
/// of `b`, each once.
pub open spec fn union_names(a: Seq<Text>, b: Seq<Text>) -> Seq<Text>
    decreases b.len(),
{
    if b.len() == 0 {
        a
    } else {
        let init = union_names(a, b.drop_last());
        if init.contains(b.last()) {
            init
        } else {
            init.push(b.last())
        }
    }
}

/// As a set, `union_names` is the union of the two lists.
pub proof fn lemma_union_names_set(a: Seq<Text>, b: Seq<Text>)
    ensures
        union_names(a, b).to_set() == a.to_set().union(b.to_set()),
    decreases b.len(),
{
    if b.len() == 0 {
        assert(b.to_set() =~= Set::<Text>::empty());
        assert(a.to_set().union(b.to_set()) =~= a.to_set());
    } else {
        let init = union_names(a, b.drop_last());
        lemma_union_names_set(a, b.drop_last());
        let r = union_names(a, b);
        assert forall|n: Text| r.to_set().contains(n) == a.to_set().union(b.to_set()).contains(n) by {
            if r.contains(n) {
                let k = choose|k: int| 0 <= k < r.len() && r[k] == n;
                if k < init.len() {
                    assert(init.contains(n));
                    assert(init.to_set().contains(n));
                    if b.drop_last().to_set().contains(n) {
                        let j = choose|j: int| 0 <= j < b.drop_last().len() && b.drop_last()[j] == n;
                        assert(b[j] == n);
                    }
                } else {
                    assert(n == b.last());
                    assert(b[b.len() - 1] == n);
                }
            }
            if a.contains(n) {
                assert(init.to_set().contains(n));
                let k = choose|k: int| 0 <= k < init.len() && init[k] == n;
                assert(r[k] == n);
            }
            if b.contains(n) {
                let j = choose|j: int| 0 <= j < b.len() && b[j] == n;
                if j < b.len() - 1 {
                    assert(b.drop_last()[j] == n);
                    assert(b.drop_last().to_set().contains(n));
                    assert(init.to_set().contains(n));
                    let k = choose|k: int| 0 <= k < init.len() && init[k] == n;
                    assert(r[k] == n);
                } else {
                    if init.contains(n) {
                        let k = choose|k: int| 0 <= k < init.len() && init[k] == n;
                        assert(r[k] == n);
                    } else {
                        assert(r[init.len() as int] == n);
                    }
                }
            }
        }
        assert(r.to_set() =~= a.to_set().union(b.to_set()));
    }
}

/// Adding the names of a list that are all present changes nothing.
pub proof fn lemma_union_names_absorbs(a: Seq<Text>, b: Seq<Text>)
    requires
        forall|j: int| 0 <= j < b.len() ==> a.contains(b[j]),
    ensures
        union_names(a, b) == a,
    decreases b.len(),
{
    if b.len() > 0 {
        lemma_union_names_absorbs(a, b.drop_last());
        assert(a.contains(b[b.len() - 1]));
    }
}

/// Whether `list` holds `name`.
pub fn has_name(list: &Vec<&'static str>, name: &str) -> (found: bool)
    ensures
        found == list.deep_view().contains(name@),
{
    let mut i: usize = 0;
    while i < list.len()
        invariant
            i <= list.len(),
            forall|j: int| 0 <= j < i ==> list.deep_view()[j] != name@,
        decreases list.len() - i,
    {
        if str_eq(list[i], name) {
            assert(list.deep_view()[i as int] == name@);
            return true;
        }
        i += 1;
    }
    false
}

/// Appends to `dst` each name of `src` that it does not hold yet.
pub fn merge_names(dst: &mut Vec<&'static str>, src: &Vec<&'static str>)
    ensures
        final(dst).deep_view() == union_names(old(dst).deep_view(), src.deep_view()),
        final(dst).deep_view().to_set() == old(dst).deep_view().to_set().union(
            src.deep_view().to_set(),
        ),
{
    let ghost before = dst.deep_view();
    let ghost all = src.deep_view();
    let mut i: usize = 0;
    while i < src.len()
        invariant
            i <= src.len(),
            all == src.deep_view(),
            dst.deep_view() == union_names(before, all.take(i as int)),
        decreases src.len() - i,
    {
        let name: &'static str = src[i];
        proof {
            assert(all.take(i as int + 1).drop_last() =~= all.take(i as int));
            assert(all.take(i as int + 1).last() == name@);
        }
        if !has_name(dst, name) {
            let ghost prev = dst.deep_view();
            dst.push(name);
            assert(dst.deep_view() =~= prev.push(name@));
        }
        i += 1;
    }
    proof {
        assert(all.take(src.len() as int) =~= all);
        lemma_union_names_set(before, all);
    }
}

/// A copy of a list of names.
pub fn clone_names(list: &Vec<&'static str>) -> (copy: Vec<&'static str>)
    ensures
        copy.deep_view() == list.deep_view(),
{
    let copy = list.clone();
    assert(copy.deep_view() =~= list.deep_view());
    copy
}

} // verus!
