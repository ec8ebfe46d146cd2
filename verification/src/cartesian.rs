//! The cartesian product of the candidate kinds of each argument.
use vstd::prelude::*;

use itertools::Itertools;

use crate::type_hints::ArgTypeHint;

verus! {

/// The cartesian product of `ls`, in lexicographic order: every list that takes its `i`-th
/// element from `ls[i]`. The product of no lists holds the empty list alone.
pub open spec fn cartesian<T>(ls: Seq<Seq<T>>) -> Seq<Seq<T>>
    decreases ls.len(),
{
    if ls.len() == 0 {
        seq![seq![]]
    } else {
        let rest = cartesian(ls.drop_first());
        ls[0].map_values(|x: T| rest.map_values(|p: Seq<T>| seq![x] + p)).flatten()
    }
}

/// Whether `p` takes its `i`-th element from `ls[i]`, for each `i`.
pub open spec fn picks_from<T>(p: Seq<T>, ls: Seq<Seq<T>>) -> bool {
    p.len() == ls.len() && forall|i: int| 0 <= i < ls.len() ==> #[trigger] ls[i].contains(p[i])
}

/// The lists of kinds held by a sequence of vectors.
pub open spec fn hint_lists(v: Seq<Vec<ArgTypeHint>>) -> Seq<Seq<ArgTypeHint>> {
    v.map_values(|x: Vec<ArgTypeHint>| x@)
}

/// `Itertools::multi_cartesian_product` on the candidate kinds of each argument, collected
/// with `collect_vec`.
/// Claimed (as the crate documents it): the lists of the product in lexicographic order,
/// each list taking its `i`-th element from the `i`-th input list; for no input lists, the
/// one empty list.
#[verifier::external_body]
pub(crate) fn multi_cartesian_product(lists: Vec<Vec<ArgTypeHint>>) -> (r: Vec<Vec<ArgTypeHint>>)
    ensures
        hint_lists(r@) == cartesian(hint_lists(lists@)),
{
    lists.into_iter().multi_cartesian_product().collect_vec()
}

/// An element of a flattened sequence comes from one of its parts, and each element of a
/// part is in it.
pub proof fn lemma_flatten_contains<T>(ss: Seq<Seq<T>>, x: T)
    ensures
        ss.flatten().contains(x) <==> exists|i: int| 0 <= i < ss.len() && #[trigger] ss[i].contains(x),
    decreases ss.len(),
{
    if ss.len() > 0 {
        lemma_flatten_contains(ss.drop_first(), x);
        let f = ss.drop_first().flatten();
        assert(ss.flatten() == ss[0] + f);
        if ss.flatten().contains(x) {
            let k = choose|k: int| 0 <= k < ss.flatten().len() && ss.flatten()[k] == x;
            if k < ss[0].len() {
                assert(ss[0][k] == x);
                assert(ss[0].contains(x));
            } else {
                assert(f[k - ss[0].len()] == x);
                let i = choose|i: int| 0 <= i < ss.drop_first().len() && #[trigger] ss.drop_first()[i].contains(x);
                assert(ss[i + 1] == ss.drop_first()[i]);
                assert(ss[i + 1].contains(x));
            }
        }
        if exists|i: int| 0 <= i < ss.len() && #[trigger] ss[i].contains(x) {
            let i = choose|i: int| 0 <= i < ss.len() && #[trigger] ss[i].contains(x);
            if i == 0 {
                let k = choose|k: int| 0 <= k < ss[0].len() && ss[0][k] == x;
                assert(ss.flatten()[k] == x);
            } else {
                assert(ss.drop_first()[i - 1] == ss[i]);
                assert(f.contains(x));
                let k = choose|k: int| 0 <= k < f.len() && f[k] == x;
                assert(ss.flatten()[k + ss[0].len()] == x);
            }
        }
    }
}

/// A list is in the cartesian product exactly when it picks its elements from the lists.
pub proof fn lemma_cartesian_contains<T>(ls: Seq<Seq<T>>, p: Seq<T>)
    ensures
        cartesian(ls).contains(p) <==> picks_from(p, ls),
    decreases ls.len(),
{
    if ls.len() == 0 {
        if p.len() == 0 {
            assert(p =~= Seq::<T>::empty());
            assert(cartesian(ls)[0] == p);
        }
    } else {
        let rest = cartesian(ls.drop_first());
        let parts = ls[0].map_values(|x: T| rest.map_values(|q: Seq<T>| seq![x] + q));
        lemma_flatten_contains(parts, p);
        if cartesian(ls).contains(p) {
            let i = choose|i: int| 0 <= i < parts.len() && #[trigger] parts[i].contains(p);
            let x = ls[0][i];
            let k = choose|k: int| 0 <= k < parts[i].len() && parts[i][k] == p;
            let q = rest[k];
            assert(p == seq![x] + q);
            assert(rest.contains(q));
            lemma_cartesian_contains(ls.drop_first(), q);
            assert(p.drop_first() =~= q);
            assert forall|j: int| 0 <= j < ls.len() implies #[trigger] ls[j].contains(p[j]) by {
                if j == 0 {
                    assert(ls[0][i] == p[0]);
                } else {
                    assert(ls.drop_first()[j - 1] == ls[j]);
                    assert(q[j - 1] == p[j]);
                }
            }
        }
        if picks_from(p, ls) {
            let q = p.drop_first();
            assert forall|j: int| 0 <= j < ls.drop_first().len() implies #[trigger] ls.drop_first()[j].contains(q[j]) by {
                assert(ls[j + 1].contains(p[j + 1]));
            }
            lemma_cartesian_contains(ls.drop_first(), q);
            let k = choose|k: int| 0 <= k < rest.len() && rest[k] == q;
            assert(ls[0].contains(p[0]));
            let i = choose|i: int| 0 <= i < ls[0].len() && ls[0][i] == p[0];
            assert(parts[i][k] == seq![p[0]] + q);
            assert(seq![p[0]] + q =~= p);
            assert(parts[i].contains(p));
        }
    }
}

} // verus!
