//! Facts about filtering a sequence, and what it means to be a subsequence.

use vstd::prelude::*;

verus! {

/// `sub` can be had from `full` by leaving elements out: its elements stand
/// in `full` at rising indices.
pub open spec fn is_subsequence<A>(sub: Seq<A>, full: Seq<A>) -> bool {
    exists|at: Seq<int>| embeds(sub, full, at)
}

/// `at` gives, for each element of `sub`, an index of `full` at which it
/// stands, and these indices rise.
pub open spec fn embeds<A>(sub: Seq<A>, full: Seq<A>, at: Seq<int>) -> bool {
    &&& at.len() == sub.len()
    &&& forall|k: int| 0 <= k < sub.len() ==> 0 <= #[trigger] at[k] < full.len() && full[at[k]] == sub[k]
    &&& forall|k: int, l: int| 0 <= k < l < sub.len() ==> #[trigger] at[k] < #[trigger] at[l]
}

/// What a filter keeps is a subsequence of what it was given.
pub proof fn lemma_filter_is_subsequence<A>(s: Seq<A>, pred: spec_fn(A) -> bool)
    ensures
        is_subsequence(s.filter(pred), s),
    decreases s.len(),
{
    reveal(Seq::filter);
    if s.len() == 0 {
        assert(embeds(s.filter(pred), s, Seq::<int>::empty()));
    } else {
        let head = s.drop_last();
        lemma_filter_is_subsequence(head, pred);
        let at = choose|at: Seq<int>| embeds(head.filter(pred), head, at);
        if pred(s.last()) {
            let longer = at.push(s.len() - 1);
            assert forall|k: int| 0 <= k < s.filter(pred).len() implies 0 <= #[trigger] longer[k]
                < s.len() && s[longer[k]] == s.filter(pred)[k] by {
                if k < at.len() {
                    assert(head[at[k]] == s[at[k]]);
                }
            }
            assert(embeds(s.filter(pred), s, longer));
        } else {
            assert forall|k: int| 0 <= k < s.filter(pred).len() implies 0 <= #[trigger] at[k]
                < s.len() && s[at[k]] == s.filter(pred)[k] by {
                assert(head[at[k]] == s[at[k]]);
            }
            assert(embeds(s.filter(pred), s, at));
        }
    }
}

/// Filtering by a stricter test after a laxer one gives what the stricter
/// test gives alone.
pub proof fn lemma_filter_twice<A>(s: Seq<A>, lax: spec_fn(A) -> bool, strict: spec_fn(A) -> bool)
    requires
        forall|a: A| #[trigger] strict(a) ==> lax(a),
    ensures
        s.filter(lax).filter(strict) == s.filter(strict),
    decreases s.len(),
{
    reveal(Seq::filter);
    if s.len() > 0 {
        let head = s.drop_last();
        lemma_filter_twice(head, lax, strict);
        if lax(s.last()) {
            head.filter(lax).lemma_filter_push(s.last(), strict);
        }
    }
}

/// A filter that every element passes keeps the sequence as it is.
pub proof fn lemma_filter_keeps_all<A>(s: Seq<A>, pred: spec_fn(A) -> bool)
    requires
        forall|i: int| 0 <= i < s.len() ==> pred(#[trigger] s[i]),
    ensures
        s.filter(pred) == s,
    decreases s.len(),
{
    reveal(Seq::filter);
    if s.len() > 0 {
        lemma_filter_keeps_all(s.drop_last(), pred);
        assert(s.drop_last().push(s.last()) =~= s);
    }
}

} // verus!
