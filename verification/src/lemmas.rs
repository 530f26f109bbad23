//! Facts about sequences that the loops of the library rest on.

use vstd::prelude::*;

verus! {

/// Filtering one element more: the element is appended if it passes.
pub proof fn lemma_filter_take_step<A>(s: Seq<A>, pred: spec_fn(A) -> bool, i: int)
    requires
        0 <= i < s.len(),
    ensures
        s.take(i + 1).filter(pred) == if pred(s[i]) {
            s.take(i).filter(pred).push(s[i])
        } else {
            s.take(i).filter(pred)
        },
{
    reveal(Seq::filter);
    assert(s.take(i + 1).drop_last() =~= s.take(i));
    assert(s.take(i + 1).last() == s[i]);
}

/// The positions `0 .. n` of a sequence of length `n`.
pub open spec fn positions(n: nat) -> Seq<usize> {
    Seq::new(n, |i: int| i as usize)
}

/// Choosing among the first `k` positions by `pred` and by its negation
/// parts them: each position below `k` is in exactly one of the two choices,
/// both are in rising order, and together they are `k` positions.
pub proof fn lemma_positions_parted(n: nat, pred: spec_fn(usize) -> bool, k: int)
    requires
        0 <= k <= n <= usize::MAX,
    ensures
        ({
            let kept = positions(n).take(k).filter(pred);
            let left = positions(n).take(k).filter(|i: usize| !pred(i));
            &&& kept.len() + left.len() == k
            &&& forall|j: int| 0 <= j < kept.len() ==> kept[j] < k && pred(#[trigger] kept[j])
            &&& forall|j: int| 0 <= j < left.len() ==> left[j] < k && !pred(#[trigger] left[j])
            &&& forall|i: usize| i < k && pred(i) ==> #[trigger] kept.contains(i)
            &&& forall|i: usize| i < k && !pred(i) ==> #[trigger] left.contains(i)
            &&& forall|a: int, b: int| 0 <= a < b < kept.len() ==> kept[a] < kept[b]
            &&& forall|a: int, b: int| 0 <= a < b < left.len() ==> left[a] < left[b]
        }),
    decreases k,
{
    let all = positions(n);
    let neg = |i: usize| !pred(i);
    if k == 0 {
        reveal(Seq::filter);
        assert(all.take(0) =~= Seq::<usize>::empty());
    } else {
        lemma_positions_parted(n, pred, k - 1);
        lemma_filter_take_step(all, pred, k - 1);
        lemma_filter_take_step(all, neg, k - 1);
        let kept0 = all.take(k - 1).filter(pred);
        let left0 = all.take(k - 1).filter(neg);
        let kept = all.take(k).filter(pred);
        let left = all.take(k).filter(neg);
        let last = (k - 1) as usize;
        assert(all[k - 1] == last);
        if pred(last) {
            assert(kept == kept0.push(last));
            assert(left == left0);
            assert(kept[kept.len() - 1] == last);
            assert forall|i: usize| i < k && pred(i) implies #[trigger] kept.contains(i) by {
                if i < k - 1 {
                    assert(kept0.contains(i));
                    let j = choose|j: int| 0 <= j < kept0.len() && kept0[j] == i;
                    assert(kept[j] == i);
                } else {
                    assert(kept[kept.len() - 1] == i);
                }
            }
        } else {
            assert(left == left0.push(last));
            assert(kept == kept0);
            assert(left[left.len() - 1] == last);
            assert forall|i: usize| i < k && !pred(i) implies #[trigger] left.contains(i) by {
                if i < k - 1 {
                    assert(left0.contains(i));
                    let j = choose|j: int| 0 <= j < left0.len() && left0[j] == i;
                    assert(left[j] == i);
                } else {
                    assert(left[left.len() - 1] == i);
                }
            }
        }
    }
}

} // verus!
