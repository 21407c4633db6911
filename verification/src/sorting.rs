//! Stable sorting, stated directly: the items ordered by a key, and the items of equal key in
//! the order in which they came.
use vstd::prelude::*;

verus! {

/// The items of `s` whose key is `k`, in order.
pub open spec fn with_key<T, K>(s: Seq<T>, key: spec_fn(T) -> K, k: K) -> Seq<T> {
    s.filter(|x: T| key(x) == k)
}

/// Whether `le` is a total preorder: any two keys are ordered one way or the other, and it is
/// transitive.
pub open spec fn total_preorder<K>(le: spec_fn(K, K) -> bool) -> bool {
    &&& forall|a: K, b: K| #[trigger] le(a, b) || le(b, a)
    &&& forall|a: K, b: K, c: K| #[trigger] le(a, b) && #[trigger] le(b, c) ==> le(a, c)
}

/// `r` holds the items of `s` ordered by key, and the items of each key in their order in
/// `s`: what a stable sort of `s` by key gives.
pub open spec fn stably_sorted<T, K>(
    s: Seq<T>,
    r: Seq<T>,
    key: spec_fn(T) -> K,
    le: spec_fn(K, K) -> bool,
) -> bool {
    &&& forall|i: int, j: int| 0 <= i < j < r.len() ==> #[trigger] le(key(r[i]), key(r[j]))
    &&& forall|k: K| #[trigger] with_key(r, key, k) == with_key(s, key, k)
}

/// Sorting `s` and then one more item: the item goes after every item whose key may come
/// before its own, and before the others.
pub proof fn lemma_stable_insert<T, K>(
    s: Seq<T>,
    r: Seq<T>,
    x: T,
    p: int,
    key: spec_fn(T) -> K,
    le: spec_fn(K, K) -> bool,
)
    requires
        total_preorder(le),
        stably_sorted(s, r, key, le),
        0 <= p <= r.len(),
        p > 0 ==> le(key(r[p - 1]), key(x)),
        forall|i: int| p <= i < r.len() ==> !le(#[trigger] key(r[i]), key(x)),
    ensures
        forall|i: int| 0 <= i < p ==> le(#[trigger] key(r[i]), key(x)),
        stably_sorted(s.push(x), r.insert(p, x), key, le),
{
    broadcast use vstd::seq_lib::group_seq_properties;

    let r2 = r.insert(p, x);
    assert forall|i: int| 0 <= i < p implies le(#[trigger] key(r[i]), key(x)) by {
        if i < p - 1 {
            assert(le(key(r[i]), key(r[p - 1])));
        }
    }
    assert forall|i: int, j: int| 0 <= i < j < r2.len() implies #[trigger] le(
        key(r2[i]),
        key(r2[j]),
    ) by {
        if j < p {
            assert(le(key(r[i]), key(r[j])));
        } else if j == p {
            assert(le(key(r[i]), key(x)));
        } else if i < p {
            assert(le(key(r[i]), key(r[j - 1])));
        } else if i == p {
            assert(!le(key(r[j - 1]), key(x)));
            assert(le(key(r[j - 1]), key(x)) || le(key(x), key(r[j - 1])));
        } else {
            assert(le(key(r[i - 1]), key(r[j - 1])));
        }
    }
    assert forall|k: K| #[trigger] with_key(r2, key, k) == with_key(s.push(x), key, k) by {
        let pred = |y: T| key(y) == k;
        assert(with_key(r2, key, k) == r2.filter(pred));
        assert(with_key(r, key, k) == r.filter(pred));
        assert(with_key(s, key, k) == s.filter(pred));
        assert(with_key(s.push(x), key, k) == s.push(x).filter(pred));
        assert(r2 =~= r.take(p) + seq![x] + r.skip(p));
        assert(r =~= r.take(p) + r.skip(p));
        Seq::filter_distributes_over_add(r.take(p) + seq![x], r.skip(p), pred);
        Seq::filter_distributes_over_add(r.take(p), seq![x], pred);
        Seq::filter_distributes_over_add(r.take(p), r.skip(p), pred);
        s.lemma_filter_push(x, pred);
        seq![x].filter(pred).lemma_filter_len(pred);
        reveal_with_fuel(Seq::filter, 2);
        if key(x) == k {
            assert forall|i: int| 0 <= i < r.skip(p).len() implies !pred(#[trigger] r.skip(p)[i]) by {
                assert(r.skip(p)[i] == r[p + i]);
                assert(!le(key(r[p + i]), key(x)));
                assert(le(key(x), key(x)) || le(key(x), key(x)));
            }
            r.skip(p).lemma_all_neg_filter_empty(pred);
            assert(r.skip(p).filter(pred) =~= Seq::<T>::empty());
            assert(seq![x].filter(pred) =~= seq![x]);
            assert(r2.filter(pred) =~= r.take(p).filter(pred) + seq![x]);
            assert(r.filter(pred) =~= r.take(p).filter(pred));
            assert(with_key(r2, key, k) =~= with_key(s, key, k).push(x));
        } else {
            assert(seq![x].filter(pred) =~= Seq::<T>::empty());
            assert(with_key(r2, key, k) =~= with_key(r, key, k));
        }
    }
}

} // verus!
