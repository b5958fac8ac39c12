//! Facts about filtered sequences.

use vstd::prelude::*;

verus! {

/// Filtering a sequence that grew by one element: the element joins the
/// filtered sequence exactly when it passes the test.
pub proof fn lemma_filter_push<A>(s: Seq<A>, last: A, pred: spec_fn(A) -> bool)
    ensures
        s.push(last).filter(pred) == (if pred(last) {
            s.filter(pred).push(last)
        } else {
            s.filter(pred)
        }),
{
    reveal(Seq::filter);
    assert(s.push(last).drop_last() =~= s);
}

/// What filtering keeps: each kept element passes the test and comes from
/// the sequence, and each element that passes is kept.
pub proof fn lemma_filter_members<A>(s: Seq<A>, pred: spec_fn(A) -> bool)
    ensures
        forall|i: int|
            0 <= i < s.filter(pred).len() ==> pred(#[trigger] s.filter(pred)[i]) && s.contains(
                s.filter(pred)[i],
            ),
        forall|k: int| 0 <= k < s.len() && pred(s[k]) ==> s.filter(pred).contains(#[trigger] s[k]),
    decreases s.len(),
{
    reveal(Seq::filter);
    if s.len() > 0 {
        let front = s.drop_last();
        lemma_filter_members(front, pred);
        let kept = s.filter(pred);
        assert forall|i: int| 0 <= i < kept.len() implies pred(#[trigger] kept[i]) && s.contains(
            kept[i],
        ) by {
            if i < front.filter(pred).len() {
                let j = choose|j: int| 0 <= j < front.len() && front[j] == front.filter(pred)[i];
                assert(s[j] == kept[i]);
            } else {
                assert(s[s.len() - 1] == kept[i]);
            }
        }
        assert forall|k: int| 0 <= k < s.len() && pred(s[k]) implies kept.contains(
            #[trigger] s[k],
        ) by {
            if k < front.len() {
                assert(front[k] == s[k]);
                let j = choose|j: int|
                    0 <= j < front.filter(pred).len() && front.filter(pred)[j] == front[k];
                assert(kept[j] == s[k]);
            } else {
                assert(kept[kept.len() - 1] == s[k]);
            }
        }
    }
}

/// Filtering by a test that every element passes changes nothing.
pub proof fn lemma_filter_all_pass<A>(s: Seq<A>, pred: spec_fn(A) -> bool)
    requires
        forall|i: int| 0 <= i < s.len() ==> pred(#[trigger] s[i]),
    ensures
        s.filter(pred) == s,
    decreases s.len(),
{
    reveal(Seq::filter);
    if s.len() > 0 {
        lemma_filter_all_pass(s.drop_last(), pred);
        assert(s.drop_last().push(s.last()) =~= s);
    }
}

/// Filtering by a test that no element passes leaves nothing.
pub proof fn lemma_filter_none_pass<A>(s: Seq<A>, pred: spec_fn(A) -> bool)
    requires
        forall|i: int| 0 <= i < s.len() ==> !pred(#[trigger] s[i]),
    ensures
        s.filter(pred) == Seq::<A>::empty(),
    decreases s.len(),
{
    reveal(Seq::filter);
    if s.len() > 0 {
        lemma_filter_none_pass(s.drop_last(), pred);
    } else {
        assert(s =~= Seq::<A>::empty());
    }
}

} // verus!
