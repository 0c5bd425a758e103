//! Facts about sequences that the rest of the crate leans on.

use vstd::prelude::*;
use vstd::seq_lib::{
    lemma_multiset_commutative, to_multiset_contains, to_multiset_len, to_multiset_remove,
};

verus! {

/// Mapping and filtering a concatenation is concatenating what comes of
/// its two parts.
pub proof fn lemma_filter_map_add<A, B>(a: Seq<A>, b: Seq<A>, f: spec_fn(A) -> Option<B>)
    ensures
        (a + b).filter_map(f) == a.filter_map(f) + b.filter_map(f),
    decreases b.len(),
{
    if b.len() == 0 {
        assert(a + b =~= a);
        assert(a.filter_map(f) + b.filter_map(f) =~= a.filter_map(f));
    } else {
        lemma_filter_map_add(a, b.drop_last(), f);
        assert((a + b).drop_last() =~= a + b.drop_last());
        assert((a + b).last() == b.last());
        match f(b.last()) {
            Some(y) => {
                assert((a + b).filter_map(f) =~= a.filter_map(f) + b.filter_map(f));
            },
            None => {},
        }
    }
}

/// Every element that mapping and filtering yields comes of an element of
/// the sequence, and every element of the sequence that is kept is yielded.
pub proof fn lemma_filter_map_contains<A, B>(s: Seq<A>, f: spec_fn(A) -> Option<B>, y: B)
    ensures
        s.filter_map(f).contains(y) <==> exists|i: int| 0 <= i < s.len() && f(#[trigger] s[i]) == Some(y),
    decreases s.len(),
{
    if s.len() == 0 {
        assert(s.filter_map(f) =~= Seq::<B>::empty());
    } else {
        let r = s.drop_last();
        lemma_filter_map_contains(r, f, y);
        let out = s.filter_map(f);
        if out.contains(y) {
            let k = choose|k: int| 0 <= k < out.len() && out[k] == y;
            if k < r.filter_map(f).len() {
                assert(r.filter_map(f)[k] == y);
                let i = choose|i: int| 0 <= i < r.len() && f(#[trigger] r[i]) == Some(y);
                assert(s[i] == r[i]);
            } else {
                assert(f(s[s.len() - 1]) == Some(y));
            }
        }
        if exists|i: int| 0 <= i < s.len() && f(#[trigger] s[i]) == Some(y) {
            let i = choose|i: int| 0 <= i < s.len() && f(#[trigger] s[i]) == Some(y);
            if i < r.len() {
                assert(r[i] == s[i]);
                let k = choose|k: int| 0 <= k < r.filter_map(f).len() && r.filter_map(f)[k] == y;
                assert(out[k] == y);
            } else {
                assert(out[out.len() - 1] == y);
            }
        }
    }
}

/// Listed in another order, a sequence yields the same elements as often
/// when mapped and filtered.
pub proof fn lemma_filter_map_permutation<A, B>(a: Seq<A>, b: Seq<A>, f: spec_fn(A) -> Option<B>)
    requires
        a.to_multiset() == b.to_multiset(),
    ensures
        a.filter_map(f).to_multiset() == b.filter_map(f).to_multiset(),
    decreases a.len(),
{
    to_multiset_len(a);
    to_multiset_len(b);
    if a.len() == 0 {
        assert(a =~= b);
    } else {
        let x = a.last();
        let ra = a.drop_last();
        assert(a[a.len() - 1] == x);
        to_multiset_contains(a, x);
        to_multiset_contains(b, x);
        let k = choose|k: int| 0 <= k < b.len() && b[k] == x;
        let rb = b.remove(k);
        to_multiset_remove(a, a.len() - 1);
        to_multiset_remove(b, k);
        assert(a.remove(a.len() - 1) =~= ra);
        lemma_filter_map_permutation(ra, rb, f);
        let left = b.take(k);
        let right = b.skip(k + 1);
        assert(b =~= left + seq![x] + right);
        assert(rb =~= left + right);
        lemma_filter_map_add(left + seq![x], right, f);
        lemma_filter_map_add(left, seq![x], f);
        lemma_filter_map_add(left, right, f);
        let one = seq![x].filter_map(f);
        assert(seq![x].drop_last() =~= Seq::<A>::empty());
        assert(Seq::<A>::empty().filter_map(f) =~= Seq::<B>::empty());
        lemma_multiset_commutative(left.filter_map(f) + one, right.filter_map(f));
        lemma_multiset_commutative(left.filter_map(f), one);
        lemma_multiset_commutative(left.filter_map(f), right.filter_map(f));
        lemma_filter_map_add(ra, seq![x], f);
        assert(a =~= ra + seq![x]);
        lemma_multiset_commutative(ra.filter_map(f), one);
        assert(a.filter_map(f).to_multiset() =~= b.filter_map(f).to_multiset());
    }
}

/// What keeps exactly the elements that `p` holds of.
pub open spec fn keep_if<A>(p: spec_fn(A) -> bool) -> spec_fn(A) -> Option<A> {
    |x: A|
        if p(x) {
            Some(x)
        } else {
            None
        }
}

/// Filtering is mapping and filtering with the map that changes nothing.
pub proof fn lemma_filter_is_filter_map<A>(s: Seq<A>, p: spec_fn(A) -> bool)
    ensures
        s.filter(p) == s.filter_map(keep_if(p)),
    decreases s.len(),
{
    reveal(Seq::filter);
    if s.len() > 0 {
        lemma_filter_is_filter_map(s.drop_last(), p);
        assert(s.filter(p) =~= s.filter_map(keep_if(p)));
    }
}

/// Listed in another order, a sequence yields the same elements as often
/// when filtered.
pub proof fn lemma_filter_permutation<A>(a: Seq<A>, b: Seq<A>, p: spec_fn(A) -> bool)
    requires
        a.to_multiset() == b.to_multiset(),
    ensures
        a.filter(p).to_multiset() == b.filter(p).to_multiset(),
{
    lemma_filter_is_filter_map(a, p);
    lemma_filter_is_filter_map(b, p);
    lemma_filter_map_permutation(a, b, keep_if(p));
}

/// A filter that holds of every element changes nothing.
pub proof fn lemma_filter_all<A>(s: Seq<A>, p: spec_fn(A) -> bool)
    requires
        forall|i: int| 0 <= i < s.len() ==> p(#[trigger] s[i]),
    ensures
        s.filter(p) == s,
    decreases s.len(),
{
    reveal(Seq::filter);
    if s.len() > 0 {
        let r = s.drop_last();
        assert forall|i: int| 0 <= i < r.len() implies p(#[trigger] r[i]) by {
            assert(r[i] == s[i]);
        }
        lemma_filter_all(r, p);
        assert(s.filter(p) =~= s);
    } else {
        assert(s.filter(p) =~= s);
    }
}

/// An element is in the concatenation of the groups exactly if it is in one
/// of them.
pub proof fn lemma_flatten_contains<A>(groups: Seq<Seq<A>>, x: A)
    ensures
        groups.flatten().contains(x) <==> exists|i: int|
            0 <= i < groups.len() && (#[trigger] groups[i]).contains(x),
    decreases groups.len(),
{
    groups.lemma_flatten_and_flatten_alt_are_equivalent();
    if groups.len() == 0 {
        assert(groups.flatten() =~= Seq::<A>::empty());
    } else {
        let r = groups.drop_last();
        let g = groups.last();
        lemma_flatten_contains(r, x);
        r.lemma_flatten_and_flatten_alt_are_equivalent();
        let all = groups.flatten();
        assert(all =~= r.flatten() + g);
        if all.contains(x) {
            let k = choose|k: int| 0 <= k < all.len() && all[k] == x;
            if k < r.flatten().len() {
                assert(r.flatten()[k] == x);
                let i = choose|i: int| 0 <= i < r.len() && (#[trigger] r[i]).contains(x);
                assert(groups[i] == r[i]);
            } else {
                assert(g[k - r.flatten().len()] == x);
                assert(groups[groups.len() - 1].contains(x));
            }
        }
        if exists|i: int| 0 <= i < groups.len() && (#[trigger] groups[i]).contains(x) {
            let i = choose|i: int| 0 <= i < groups.len() && (#[trigger] groups[i]).contains(x);
            if i < r.len() {
                assert(r[i] == groups[i]);
                let k = choose|k: int| 0 <= k < r.flatten().len() && r.flatten()[k] == x;
                assert(all[k] == x);
            } else {
                let k = choose|k: int| 0 <= k < g.len() && g[k] == x;
                assert(all[r.flatten().len() + k] == x);
            }
        }
    }
}


/// An element is in a filtered sequence exactly if it is in the sequence
/// and the filter holds of it.
pub proof fn lemma_filter_contains<A>(s: Seq<A>, p: spec_fn(A) -> bool, x: A)
    ensures
        s.filter(p).contains(x) <==> s.contains(x) && p(x),
{
    lemma_filter_is_filter_map(s, p);
    lemma_filter_map_contains(s, keep_if(p), x);
    if s.contains(x) && p(x) {
        let i = choose|i: int| 0 <= i < s.len() && s[i] == x;
        assert(keep_if(p)(s[i]) == Some(x));
    }
    if s.filter(p).contains(x) {
        let i = choose|i: int| 0 <= i < s.len() && keep_if(p)(#[trigger] s[i]) == Some(x);
        assert(s[i] == x);
    }
}

} // verus!
