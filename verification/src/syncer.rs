use vstd::prelude::*;
use crate::board::{Board, BoardKey};
use crate::order::{Order, Ordered, total_order, strictly_sorted};
use crate::errors::Error;
use crate::text::lit;

verus! {

/// The steps of a sorted comparison of `l` with `r` (like the Unix `comm` tool): each step
/// tags an item as only in `l` (`Less`), in both (`Equal`, carrying the item of `l`), or only
/// in `r` (`Greater`).
pub open spec fn comm_seq<T: Ordered>(l: Seq<T>, r: Seq<T>) -> Seq<(Order, T)>
    decreases l.len() + r.len(),
{
    if l.len() == 0 && r.len() == 0 {
        seq![]
    } else if r.len() == 0 {
        seq![(Order::Less, l[0])] + comm_seq(l.drop_first(), r)
    } else if l.len() == 0 {
        seq![(Order::Greater, r[0])] + comm_seq(l, r.drop_first())
    } else {
        let o = l[0].order_spec(&r[0]);
        if o == Order::Equal {
            seq![(Order::Equal, l[0])] + comm_seq(l.drop_first(), r.drop_first())
        } else if o == Order::Less {
            seq![(Order::Less, l[0])] + comm_seq(l.drop_first(), r)
        } else {
            seq![(Order::Greater, r[0])] + comm_seq(l, r.drop_first())
        }
    }
}

/// What a step contributes to the merged list.
pub open spec fn all_part<T>(s: (Order, T), heed_deletions: bool) -> Seq<T> {
    if s.0 == Order::Greater && heed_deletions {
        seq![]
    } else {
        seq![s.1]
    }
}

/// What a step contributes to the additions.
pub open spec fn add_part<T>(s: (Order, T)) -> Seq<T> {
    if s.0 == Order::Less {
        seq![s.1]
    } else {
        seq![]
    }
}

/// What a step contributes to the deletions.
pub open spec fn del_part<T>(s: (Order, T)) -> Seq<T> {
    if s.0 == Order::Greater {
        seq![s.1]
    } else {
        seq![]
    }
}

/// The merged list of a run of steps: every item, but the `Greater` ones when deletions are heeded.
pub open spec fn all_of<T>(steps: Seq<(Order, T)>, heed_deletions: bool) -> Seq<T>
    decreases steps.len(),
{
    if steps.len() == 0 {
        seq![]
    } else {
        all_of(steps.drop_last(), heed_deletions) + all_part(steps.last(), heed_deletions)
    }
}

/// The items of the `Less` steps.
pub open spec fn adds_of<T>(steps: Seq<(Order, T)>) -> Seq<T>
    decreases steps.len(),
{
    if steps.len() == 0 {
        seq![]
    } else {
        adds_of(steps.drop_last()) + add_part(steps.last())
    }
}

/// The items of the `Greater` steps.
pub open spec fn dels_of<T>(steps: Seq<(Order, T)>) -> Seq<T>
    decreases steps.len(),
{
    if steps.len() == 0 {
        seq![]
    } else {
        dels_of(steps.drop_last()) + del_part(steps.last())
    }
}

pub proof fn lemma_folds_prepend<T>(s: (Order, T), rest: Seq<(Order, T)>, heed_deletions: bool)
    ensures
        all_of(seq![s] + rest, heed_deletions) == all_part(s, heed_deletions) + all_of(
            rest,
            heed_deletions,
        ),
        adds_of(seq![s] + rest) == add_part(s) + adds_of(rest),
        dels_of(seq![s] + rest) == del_part(s) + dels_of(rest),
    decreases rest.len(),
{
    let t = seq![s] + rest;
    assert(t.len() > 0);
    if rest.len() == 0 {
        assert(t.drop_last() =~= Seq::<(Order, T)>::empty());
        assert(t.last() == s);
        assert(all_of(t, heed_deletions) == all_of(t.drop_last(), heed_deletions) + all_part(
            t.last(),
            heed_deletions,
        ));
        assert(all_of(t, heed_deletions) =~= all_part(s, heed_deletions) + all_of(
            rest,
            heed_deletions,
        ));
        assert(adds_of(t) == adds_of(t.drop_last()) + add_part(t.last()));
        assert(dels_of(t) == dels_of(t.drop_last()) + del_part(t.last()));
        assert(adds_of(t) =~= add_part(s) + adds_of(rest));
        assert(dels_of(t) =~= del_part(s) + dels_of(rest));
    } else {
        lemma_folds_prepend(s, rest.drop_last(), heed_deletions);
        assert(t.drop_last() =~= seq![s] + rest.drop_last());
        assert(t.last() == rest.last());
        assert(all_of(t, heed_deletions) =~= all_part(s, heed_deletions) + all_of(
            rest,
            heed_deletions,
        ));
        assert(adds_of(t) =~= add_part(s) + adds_of(rest));
        assert(dels_of(t) =~= del_part(s) + dels_of(rest));
    }
}

/// `s` holds an item that compares `Equal` to `x`.
pub open spec fn has_match<T: Ordered>(s: Seq<T>, x: T) -> bool {
    exists|j: int| 0 <= j < s.len() && #[trigger] x.order_spec(&s[j]) == Order::Equal
}

/// The items of `l`, in order, that have no match in `r`.
pub open spec fn unmatched<T: Ordered>(l: Seq<T>, r: Seq<T>) -> Seq<T>
    decreases l.len(),
{
    if l.len() == 0 {
        seq![]
    } else {
        (if has_match(r, l[0]) {
            seq![]
        } else {
            seq![l[0]]
        }) + unmatched(l.drop_first(), r)
    }
}

proof fn lemma_has_match_cons<T: Ordered>(s: Seq<T>, x: T)
    requires
        s.len() > 0,
    ensures
        has_match(s, x) == (x.order_spec(&s[0]) == Order::Equal || has_match(s.drop_first(), x)),
{
    if has_match(s, x) && x.order_spec(&s[0]) != Order::Equal {
        let j = choose|j: int| 0 <= j < s.len() && #[trigger] x.order_spec(&s[j]) == Order::Equal;
        assert(s.drop_first()[j - 1] == s[j]);
    }
    if has_match(s.drop_first(), x) {
        let j = choose|j: int|
            0 <= j < s.drop_first().len() && #[trigger] x.order_spec(&s.drop_first()[j])
                == Order::Equal;
        assert(s[j + 1] == s.drop_first()[j]);
    }
}

proof fn lemma_unmatched_congruent<T: Ordered>(l: Seq<T>, r1: Seq<T>, r2: Seq<T>)
    requires
        forall|i: int| 0 <= i < l.len() ==> has_match(r1, #[trigger] l[i]) == has_match(r2, l[i]),
    ensures
        unmatched(l, r1) == unmatched(l, r2),
    decreases l.len(),
{
    if l.len() > 0 {
        assert(has_match(r1, l[0]) == has_match(r2, l[0]));
        assert forall|i: int| 0 <= i < l.drop_first().len() implies has_match(
            r1,
            #[trigger] l.drop_first()[i],
        ) == has_match(r2, l.drop_first()[i]) by {
            assert(l.drop_first()[i] == l[i + 1]);
        }
        lemma_unmatched_congruent(l.drop_first(), r1, r2);
    }
}

proof fn lemma_sorted_drop_first<T: Ordered>(s: Seq<T>)
    requires
        strictly_sorted(s),
        s.len() > 0,
    ensures
        strictly_sorted(s.drop_first()),
{
    assert forall|i: int, j: int| 0 <= i < j < s.drop_first().len() implies #[trigger] s.drop_first()[i].order_spec(
        &s.drop_first()[j],
    ) == Order::Less by {
        assert(s.drop_first()[i] == s[i + 1]);
        assert(s.drop_first()[j] == s[j + 1]);
    }
}

/// When every item of `l` is above `x`, `x` takes no part in matching `l`'s items.
proof fn lemma_above_unmatched<T: Ordered>(l: Seq<T>, r: Seq<T>, x: T)
    requires
        total_order::<T>(),
        r.len() > 0,
        r[0] == x,
        forall|i: int| 0 <= i < l.len() ==> #[trigger] x.order_spec(&l[i]) == Order::Less,
    ensures
        unmatched(l, r) == unmatched(l, r.drop_first()),
{
    assert forall|i: int| 0 <= i < l.len() implies has_match(r, #[trigger] l[i]) == has_match(
        r.drop_first(),
        l[i],
    ) by {
        lemma_has_match_cons(r, l[i]);
        assert(x.order_spec(&l[i]) == l[i].order_spec(&x).flip());
    }
    lemma_unmatched_congruent(l, r, r.drop_first());
}

/// The items of a comparison's steps, in order.
pub open spec fn step_items<T>(steps: Seq<(Order, T)>) -> Seq<T> {
    Seq::new(steps.len(), |i: int| steps[i].1)
}

/// An item strictly below every item of two lists is strictly below every item of their
/// comparison.
#[verifier::spinoff_prover]
proof fn lemma_comm_above<T: Ordered>(l: Seq<T>, r: Seq<T>, x: T)
    requires
        total_order::<T>(),
        forall|i: int| 0 <= i < l.len() ==> #[trigger] x.order_spec(&l[i]) == Order::Less,
        forall|i: int| 0 <= i < r.len() ==> #[trigger] x.order_spec(&r[i]) == Order::Less,
    ensures
        forall|i: int| 0 <= i < comm_seq(l, r).len() ==> #[trigger] x.order_spec(&comm_seq(l, r)[i].1) == Order::Less,
    decreases l.len() + r.len(),
{
    if l.len() == 0 && r.len() == 0 {
        return;
    }
    let c = comm_seq(l, r);
    let takes_l = r.len() == 0 || (l.len() > 0 && l[0].order_spec(&r[0]) != Order::Greater);
    let drops_r = l.len() == 0 || (r.len() > 0 && l[0].order_spec(&r[0]) != Order::Less);
    let l2 = if takes_l { l.drop_first() } else { l };
    let r2 = if drops_r { r.drop_first() } else { r };
    assert forall|i: int| 0 <= i < l2.len() implies #[trigger] x.order_spec(&l2[i]) == Order::Less by {
        if takes_l {
            assert(l2[i] == l[i + 1]);
        }
    }
    assert forall|i: int| 0 <= i < r2.len() implies #[trigger] x.order_spec(&r2[i]) == Order::Less by {
        if drops_r {
            assert(r2[i] == r[i + 1]);
        }
    }
    lemma_comm_above(l2, r2, x);
    let rest = comm_seq(l2, r2);
    assert(c == seq![c[0]] + rest);
    if takes_l {
        assert(c[0].1 == l[0]);
    } else {
        assert(c[0].1 == r[0]);
    }
    assert forall|i: int| 0 <= i < c.len() implies #[trigger] x.order_spec(&c[i].1) == Order::Less by {
        if i > 0 {
            assert(c[i] == rest[i - 1]);
        }
    }
}

/// For strictly sorted lists, under a total order, the items of their comparison come out
/// strictly increasing.
#[verifier::spinoff_prover]
#[verifier::rlimit(50)]
pub proof fn law_comm_strictly_increasing<T: Ordered>(l: Seq<T>, r: Seq<T>)
    requires
        total_order::<T>(),
        strictly_sorted(l),
        strictly_sorted(r),
    ensures
        strictly_sorted(step_items(comm_seq(l, r))),
    decreases l.len() + r.len(),
{
    if l.len() == 0 && r.len() == 0 {
        return;
    }
    let c = comm_seq(l, r);
    let takes_l = r.len() == 0 || (l.len() > 0 && l[0].order_spec(&r[0]) != Order::Greater);
    let drops_r = l.len() == 0 || (r.len() > 0 && l[0].order_spec(&r[0]) != Order::Less);
    let l2 = if takes_l { l.drop_first() } else { l };
    let r2 = if drops_r { r.drop_first() } else { r };
    if takes_l {
        lemma_sorted_drop_first(l);
    }
    if drops_r {
        lemma_sorted_drop_first(r);
    }
    law_comm_strictly_increasing(l2, r2);
    let rest = comm_seq(l2, r2);
    assert(c == seq![c[0]] + rest);
    let h = c[0].1;
    if takes_l {
        assert(h == l[0]);
    } else {
        assert(h == r[0]);
    }
    assert forall|i: int| 0 <= i < l2.len() implies #[trigger] h.order_spec(&l2[i]) == Order::Less by {
        if takes_l {
            assert(l2[i] == l[i + 1]);
            assert(l[0].order_spec(&l[i + 1]) == Order::Less);
        } else {
            let o = l[0].order_spec(&r[0]);
            assert(o == Order::Greater);
            assert(r[0].order_spec(&l[0]) == o.flip());
            if i > 0 {
                assert(l[0].order_spec(&l[i]) == Order::Less);
            }
        }
    }
    assert forall|i: int| 0 <= i < r2.len() implies #[trigger] h.order_spec(&r2[i]) == Order::Less by {
        if drops_r {
            assert(r2[i] == r[i + 1]);
            assert(r[0].order_spec(&r[i + 1]) == Order::Less);
            if takes_l {
                assert(l[0].order_spec(&r[0]) == Order::Equal);
                assert(l[0].order_spec(&r[i + 1]) == r[0].order_spec(&r[i + 1]));
            }
        } else {
            assert(l[0].order_spec(&r[0]) == Order::Less);
            if i > 0 {
                assert(r[0].order_spec(&r[i]) == Order::Less);
            }
        }
    }
    lemma_comm_above(l2, r2, h);
    let items = step_items(c);
    let rest_items = step_items(rest);
    assert forall|i: int, j: int| 0 <= i < j < items.len() implies #[trigger] items[i].order_spec(&items[j]) == Order::Less by {
        assert(items[j] == rest[j - 1].1);
        if i == 0 {
            assert(items[0] == h);
        } else {
            assert(items[i] == rest_items[i - 1]);
            assert(items[j] == rest_items[j - 1]);
        }
    }
}

/// When deletions are heeded, the merged list is exactly the new list.
pub proof fn law_heeded_merge_is_new<T: Ordered>(l: Seq<T>, r: Seq<T>)
    ensures
        all_of(comm_seq(l, r), true) == l,
    decreases l.len() + r.len(),
{
    if l.len() == 0 && r.len() == 0 {
    } else if r.len() == 0 {
        law_heeded_merge_is_new(l.drop_first(), r);
        lemma_folds_prepend((Order::Less, l[0]), comm_seq(l.drop_first(), r), true);
        assert(seq![l[0]] + l.drop_first() =~= l);
    } else if l.len() == 0 {
        law_heeded_merge_is_new(l, r.drop_first());
        lemma_folds_prepend((Order::Greater, r[0]), comm_seq(l, r.drop_first()), true);
        assert(Seq::<T>::empty() + l =~= l);
    } else {
        let o = l[0].order_spec(&r[0]);
        if o == Order::Equal {
            law_heeded_merge_is_new(l.drop_first(), r.drop_first());
            lemma_folds_prepend((Order::Equal, l[0]), comm_seq(l.drop_first(), r.drop_first()), true);
            assert(seq![l[0]] + l.drop_first() =~= l);
        } else if o == Order::Less {
            law_heeded_merge_is_new(l.drop_first(), r);
            lemma_folds_prepend((Order::Less, l[0]), comm_seq(l.drop_first(), r), true);
            assert(seq![l[0]] + l.drop_first() =~= l);
        } else {
            law_heeded_merge_is_new(l, r.drop_first());
            lemma_folds_prepend((Order::Greater, r[0]), comm_seq(l, r.drop_first()), true);
            assert(Seq::<T>::empty() + l =~= l);
        }
    }
}

/// When deletions are not heeded, the merged list holds every new item and every deleted
/// item, one entry each.
pub proof fn law_unheeded_merge_len<T: Ordered>(l: Seq<T>, r: Seq<T>)
    ensures
        all_of(comm_seq(l, r), false).len() == l.len() + dels_of(comm_seq(l, r)).len(),
    decreases l.len() + r.len(),
{
    if l.len() == 0 && r.len() == 0 {
    } else if r.len() == 0 {
        law_unheeded_merge_len(l.drop_first(), r);
        lemma_folds_prepend((Order::Less, l[0]), comm_seq(l.drop_first(), r), false);
    } else if l.len() == 0 {
        law_unheeded_merge_len(l, r.drop_first());
        lemma_folds_prepend((Order::Greater, r[0]), comm_seq(l, r.drop_first()), false);
    } else {
        let o = l[0].order_spec(&r[0]);
        if o == Order::Equal {
            law_unheeded_merge_len(l.drop_first(), r.drop_first());
            lemma_folds_prepend((Order::Equal, l[0]), comm_seq(l.drop_first(), r.drop_first()), false);
        } else if o == Order::Less {
            law_unheeded_merge_len(l.drop_first(), r);
            lemma_folds_prepend((Order::Less, l[0]), comm_seq(l.drop_first(), r), false);
        } else {
            law_unheeded_merge_len(l, r.drop_first());
            lemma_folds_prepend((Order::Greater, r[0]), comm_seq(l, r.drop_first()), false);
        }
    }
}

/// For sorted lists, the additions are the new items, in order, that no old item matches.
pub proof fn law_additions_are_unmatched_new<T: Ordered>(l: Seq<T>, r: Seq<T>)
    requires
        total_order::<T>(),
        strictly_sorted(l),
        strictly_sorted(r),
    ensures
        adds_of(comm_seq(l, r)) == unmatched(l, r),
    decreases l.len() + r.len(),
{
    if l.len() == 0 && r.len() == 0 {
    } else if l.len() == 0 {
        lemma_sorted_drop_first(r);
        law_additions_are_unmatched_new(l, r.drop_first());
        lemma_folds_prepend((Order::Greater, r[0]), comm_seq(l, r.drop_first()), false);
        assert(adds_of(comm_seq(l, r)) =~= unmatched(l, r));
    } else {
        lemma_sorted_drop_first(l);
        let o = if r.len() == 0 {
            Order::Less
        } else {
            l[0].order_spec(&r[0])
        };
        if r.len() > 0 {
            lemma_sorted_drop_first(r);
        }
        if o == Order::Less {
            law_additions_are_unmatched_new(l.drop_first(), r);
            lemma_folds_prepend((Order::Less, l[0]), comm_seq(l.drop_first(), r), false);
            assert(!has_match(r, l[0])) by {
                if has_match(r, l[0]) {
                    let j = choose|j: int|
                        0 <= j < r.len() && #[trigger] l[0].order_spec(&r[j]) == Order::Equal;
                    if j > 0 {
                        assert(r[0].order_spec(&r[j]) == Order::Less);
                    }
                }
            }
            assert(adds_of(comm_seq(l, r)) =~= unmatched(l, r));
        } else if o == Order::Equal {
            law_additions_are_unmatched_new(l.drop_first(), r.drop_first());
            lemma_folds_prepend((Order::Equal, l[0]), comm_seq(l.drop_first(), r.drop_first()), false);
            assert(has_match(r, l[0])) by {
                assert(l[0].order_spec(&r[0]) == Order::Equal);
            }
            assert forall|i: int| 0 <= i < l.drop_first().len() implies #[trigger] r[0].order_spec(
                &l.drop_first()[i],
            ) == Order::Less by {
                assert(l.drop_first()[i] == l[i + 1]);
                assert(l[0].order_spec(&l[i + 1]) == Order::Less);
                assert(r[0].order_spec(&l[0]) == l[0].order_spec(&r[0]).flip());
            }
            lemma_above_unmatched(l.drop_first(), r, r[0]);
            assert(adds_of(comm_seq(l, r)) =~= unmatched(l, r));
        } else {
            law_additions_are_unmatched_new(l, r.drop_first());
            lemma_folds_prepend((Order::Greater, r[0]), comm_seq(l, r.drop_first()), false);
            assert forall|i: int| 0 <= i < l.len() implies #[trigger] r[0].order_spec(&l[i])
                == Order::Less by {
                assert(r[0].order_spec(&l[0]) == l[0].order_spec(&r[0]).flip());
                if i > 0 {
                    assert(l[0].order_spec(&l[i]) == Order::Less);
                }
            }
            lemma_above_unmatched(l, r, r[0]);
            assert(adds_of(comm_seq(l, r)) =~= unmatched(l, r));
        }
    }
}

/// The items of `l`, in order, that have a match in `r`.
pub open spec fn matched<T: Ordered>(l: Seq<T>, r: Seq<T>) -> Seq<T>
    decreases l.len(),
{
    if l.len() == 0 {
        seq![]
    } else {
        (if has_match(r, l[0]) {
            seq![l[0]]
        } else {
            seq![]
        }) + matched(l.drop_first(), r)
    }
}

/// The items of the `Equal` steps, in order.
pub open spec fn equals_of<T>(steps: Seq<(Order, T)>) -> Seq<T>
    decreases steps.len(),
{
    if steps.len() == 0 {
        seq![]
    } else {
        (if steps[0].0 == Order::Equal {
            seq![steps[0].1]
        } else {
            seq![]
        }) + equals_of(steps.drop_first())
    }
}

proof fn lemma_matched_congruent<T: Ordered>(l: Seq<T>, r1: Seq<T>, r2: Seq<T>)
    requires
        forall|i: int| 0 <= i < l.len() ==> has_match(r1, #[trigger] l[i]) == has_match(r2, l[i]),
    ensures
        matched(l, r1) == matched(l, r2),
    decreases l.len(),
{
    if l.len() > 0 {
        assert(has_match(r1, l[0]) == has_match(r2, l[0]));
        assert forall|i: int| 0 <= i < l.drop_first().len() implies has_match(
            r1,
            #[trigger] l.drop_first()[i],
        ) == has_match(r2, l.drop_first()[i]) by {
            assert(l.drop_first()[i] == l[i + 1]);
        }
        lemma_matched_congruent(l.drop_first(), r1, r2);
    }
}

/// When every item of `l` is above `x`, `x` takes no part in matching `l`'s items.
proof fn lemma_above_matched<T: Ordered>(l: Seq<T>, r: Seq<T>, x: T)
    requires
        total_order::<T>(),
        r.len() > 0,
        r[0] == x,
        forall|i: int| 0 <= i < l.len() ==> #[trigger] x.order_spec(&l[i]) == Order::Less,
    ensures
        matched(l, r) == matched(l, r.drop_first()),
{
    assert forall|i: int| 0 <= i < l.len() implies has_match(r, #[trigger] l[i]) == has_match(
        r.drop_first(),
        l[i],
    ) by {
        lemma_has_match_cons(r, l[i]);
        assert(x.order_spec(&l[i]) == l[i].order_spec(&x).flip());
    }
    lemma_matched_congruent(l, r, r.drop_first());
}

/// For strictly sorted lists, the `Equal` steps of their comparison carry exactly the items of
/// `l` that have a match in `r`, in order, and the comparison takes one step per item of either
/// list, each match counted once.
#[verifier::spinoff_prover]
#[verifier::rlimit(50)]
pub proof fn law_comm_matches<T: Ordered>(l: Seq<T>, r: Seq<T>)
    requires
        total_order::<T>(),
        strictly_sorted(l),
        strictly_sorted(r),
    ensures
        equals_of(comm_seq(l, r)) == matched(l, r),
        comm_seq(l, r).len() == l.len() + r.len() - matched(l, r).len(),
    decreases l.len() + r.len(),
{
    let c = comm_seq(l, r);
    if l.len() == 0 && r.len() == 0 {
    } else if l.len() == 0 {
        lemma_sorted_drop_first(r);
        law_comm_matches(l, r.drop_first());
        assert(c.drop_first() =~= comm_seq(l, r.drop_first()));
        assert(equals_of(c) =~= matched(l, r));
    } else {
        lemma_sorted_drop_first(l);
        let o = if r.len() == 0 {
            Order::Less
        } else {
            l[0].order_spec(&r[0])
        };
        if r.len() > 0 {
            lemma_sorted_drop_first(r);
        }
        if o == Order::Less {
            law_comm_matches(l.drop_first(), r);
            assert(c.drop_first() =~= comm_seq(l.drop_first(), r));
            assert(!has_match(r, l[0])) by {
                if has_match(r, l[0]) {
                    let j = choose|j: int|
                        0 <= j < r.len() && #[trigger] l[0].order_spec(&r[j]) == Order::Equal;
                    if j > 0 {
                        assert(r[0].order_spec(&r[j]) == Order::Less);
                    }
                }
            }
            assert(matched(l, r) =~= matched(l.drop_first(), r));
            assert(equals_of(c) =~= matched(l, r));
        } else if o == Order::Equal {
            law_comm_matches(l.drop_first(), r.drop_first());
            assert(c.drop_first() =~= comm_seq(l.drop_first(), r.drop_first()));
            assert(has_match(r, l[0])) by {
                assert(l[0].order_spec(&r[0]) == Order::Equal);
            }
            assert forall|i: int| 0 <= i < l.drop_first().len() implies #[trigger] r[0].order_spec(
                &l.drop_first()[i],
            ) == Order::Less by {
                assert(l.drop_first()[i] == l[i + 1]);
                assert(l[0].order_spec(&l[i + 1]) == Order::Less);
                assert(r[0].order_spec(&l[0]) == l[0].order_spec(&r[0]).flip());
            }
            lemma_above_matched(l.drop_first(), r, r[0]);
            assert(matched(l, r) =~= seq![l[0]] + matched(l.drop_first(), r.drop_first()));
            assert(equals_of(c) =~= matched(l, r));
        } else {
            law_comm_matches(l, r.drop_first());
            assert(c.drop_first() =~= comm_seq(l, r.drop_first()));
            assert forall|i: int| 0 <= i < l.len() implies #[trigger] r[0].order_spec(&l[i])
                == Order::Less by {
                assert(r[0].order_spec(&l[0]) == l[0].order_spec(&r[0]).flip());
                if i > 0 {
                    assert(l[0].order_spec(&l[i]) == Order::Less);
                }
            }
            lemma_above_matched(l, r, r[0]);
            assert(equals_of(c) =~= matched(l, r));
        }
    }
}

/// For sorted lists, the deletions are the old items, in order, that no new item matches.
pub proof fn law_deletions_are_unmatched_old<T: Ordered>(l: Seq<T>, r: Seq<T>)
    requires
        total_order::<T>(),
        strictly_sorted(l),
        strictly_sorted(r),
    ensures
        dels_of(comm_seq(l, r)) == unmatched(r, l),
    decreases l.len() + r.len(),
{
    if l.len() == 0 && r.len() == 0 {
    } else if r.len() == 0 {
        lemma_sorted_drop_first(l);
        law_deletions_are_unmatched_old(l.drop_first(), r);
        lemma_folds_prepend((Order::Less, l[0]), comm_seq(l.drop_first(), r), false);
        assert(dels_of(comm_seq(l, r)) =~= unmatched(r, l));
    } else {
        lemma_sorted_drop_first(r);
        let o = if l.len() == 0 {
            Order::Greater
        } else {
            l[0].order_spec(&r[0])
        };
        if l.len() > 0 {
            lemma_sorted_drop_first(l);
        }
        if o == Order::Greater {
            law_deletions_are_unmatched_old(l, r.drop_first());
            lemma_folds_prepend((Order::Greater, r[0]), comm_seq(l, r.drop_first()), false);
            assert(!has_match(l, r[0])) by {
                if has_match(l, r[0]) {
                    let k = choose|k: int|
                        0 <= k < l.len() && #[trigger] r[0].order_spec(&l[k]) == Order::Equal;
                    assert(r[0].order_spec(&l[0]) == l[0].order_spec(&r[0]).flip());
                    if k > 0 {
                        assert(l[0].order_spec(&l[k]) == Order::Less);
                    }
                }
            }
            assert(dels_of(comm_seq(l, r)) =~= unmatched(r, l));
        } else if o == Order::Equal {
            law_deletions_are_unmatched_old(l.drop_first(), r.drop_first());
            lemma_folds_prepend((Order::Equal, l[0]), comm_seq(l.drop_first(), r.drop_first()), false);
            assert(has_match(l, r[0])) by {
                assert(r[0].order_spec(&l[0]) == l[0].order_spec(&r[0]).flip());
            }
            assert forall|j: int| 0 <= j < r.drop_first().len() implies #[trigger] l[0].order_spec(
                &r.drop_first()[j],
            ) == Order::Less by {
                assert(r.drop_first()[j] == r[j + 1]);
                assert(r[0].order_spec(&r[j + 1]) == Order::Less);
                assert(l[0].order_spec(&r[0]) == Order::Equal);
            }
            lemma_above_unmatched(r.drop_first(), l, l[0]);
            assert(dels_of(comm_seq(l, r)) =~= unmatched(r, l));
        } else {
            law_deletions_are_unmatched_old(l.drop_first(), r);
            lemma_folds_prepend((Order::Less, l[0]), comm_seq(l.drop_first(), r), false);
            assert forall|j: int| 0 <= j < r.len() implies #[trigger] l[0].order_spec(&r[j])
                == Order::Less by {
                if j > 0 {
                    assert(r[0].order_spec(&r[j]) == Order::Less);
                }
            }
            lemma_above_unmatched(r, l, l[0]);
            assert(dels_of(comm_seq(l, r)) =~= unmatched(r, l));
        }
    }
}

/// Comparing a list with itself finds nothing added, nothing deleted, and keeps the list.
#[verifier::spinoff_prover]
#[verifier::rlimit(40)]
pub proof fn law_no_change<T: Ordered>(s: Seq<T>, heed_deletions: bool)
    requires
        total_order::<T>(),
    ensures
        adds_of(comm_seq(s, s)).len() == 0,
        dels_of(comm_seq(s, s)).len() == 0,
        all_of(comm_seq(s, s), heed_deletions) == s,
    decreases s.len(),
{
    if s.len() > 0 {
        assert(s[0].order_spec(&s[0]) == Order::Equal);
        assert(comm_seq(s, s) == seq![(Order::Equal, s[0])] + comm_seq(s.drop_first(), s.drop_first()));
        law_no_change(s.drop_first(), heed_deletions);
        lemma_folds_prepend(
            (Order::Equal, s[0]),
            comm_seq(s.drop_first(), s.drop_first()),
            heed_deletions,
        );
        assert(seq![s[0]] + s.drop_first() =~= s);
    }
}

/// A sorted comparison of two lists, producing its steps one at a time.
pub struct Comm<T> {
    l: Vec<T>,
    r: Vec<T>,
    li: usize,
    ri: usize,
}

impl<T> Comm<T> {
    #[verifier::type_invariant]
    spec fn inv(&self) -> bool {
        self.li <= self.l.len() && self.ri <= self.r.len()
    }
}

impl<T: Ordered> Comm<T> {
    /// The part of the left list not yet consumed.
    pub closed spec fn left_rest(&self) -> Seq<T> {
        self.l@.skip(self.li as int)
    }

    /// The part of the right list not yet consumed.
    pub closed spec fn right_rest(&self) -> Seq<T> {
        self.r@.skip(self.ri as int)
    }

    /// The steps still to come.
    pub open spec fn rest(&self) -> Seq<(Order, T)> {
        comm_seq(self.left_rest(), self.right_rest())
    }

    /// Starts comparing `left` with `right`.
    pub fn new(left: Vec<T>, right: Vec<T>) -> (c: Self)
        ensures
            c.left_rest() == left@,
            c.right_rest() == right@,
    {
        let c = Comm { l: left, r: right, li: 0, ri: 0 };
        assert(c.l@.skip(0) =~= c.l@);
        assert(c.r@.skip(0) =~= c.r@);
        c
    }

    /// The next step, if any.
    pub fn next(&mut self) -> (step: Option<(Order, T)>)
        ensures
            match step {
                None => old(self).rest().len() == 0 && final(self).rest() == old(self).rest(),
                Some(s) => old(self).rest() == seq![s] + final(self).rest(),
            },
    {
        proof {
            use_type_invariant(&*self);
        }
        let ghost l = self.left_rest();
        let ghost r = self.right_rest();
        let has_l = self.li < self.l.len();
        let has_r = self.ri < self.r.len();
        if has_l {
            assert(l[0] == self.l@[self.li as int]);
            assert(l.drop_first() =~= self.l@.skip(self.li + 1));
        }
        if has_r {
            assert(r[0] == self.r@[self.ri as int]);
            assert(r.drop_first() =~= self.r@.skip(self.ri + 1));
        }
        if !has_l && !has_r {
            None
        } else if !has_r {
            let x = self.l[self.li].duplicate();
            self.li = self.li + 1;
            Some((Order::Less, x))
        } else if !has_l {
            let x = self.r[self.ri].duplicate();
            self.ri = self.ri + 1;
            Some((Order::Greater, x))
        } else {
            let o = self.l[self.li].compare(&self.r[self.ri]);
            match o {
                Order::Equal => {
                    let x = self.l[self.li].duplicate();
                    self.li = self.li + 1;
                    self.ri = self.ri + 1;
                    Some((Order::Equal, x))
                },
                Order::Less => {
                    let x = self.l[self.li].duplicate();
                    self.li = self.li + 1;
                    Some((Order::Less, x))
                },
                Order::Greater => {
                    let x = self.r[self.ri].duplicate();
                    self.ri = self.ri + 1;
                    Some((Order::Greater, x))
                },
            }
        }
    }
}

/// A copy of a list, item by item.
pub fn copy_items<T: Ordered>(v: &Vec<T>) -> (r: Vec<T>)
    ensures
        r@ == v@,
{
    let mut r: Vec<T> = Vec::new();
    for i in 0..v.len()
        invariant
            r@ =~= v@.take(i as int),
    {
        r.push(v[i].duplicate());
    }
    assert(v@.take(v.len() as int) =~= v@);
    r
}

/// Compares the new contents of a list with the old ones: returns the merged list, the items
/// only in `new` (additions) and the items only in `old` (deletions). When `heed_deletions`
/// holds, items only in `old` are left out of the merged list.
pub fn comm_list<T: Ordered>(new: Vec<T>, old: &Vec<T>, heed_deletions: bool) -> (res: (
    Vec<T>,
    Vec<T>,
    Vec<T>,
))
    ensures
        res.0@ == all_of(comm_seq(new@, old@), heed_deletions),
        res.1@ == adds_of(comm_seq(new@, old@)),
        res.2@ == dels_of(comm_seq(new@, old@)),
{
    let ghost steps = comm_seq(new@, old@);
    let mut all: Vec<T> = Vec::new();
    let mut additions: Vec<T> = Vec::new();
    let mut deletions: Vec<T> = Vec::new();
    let mut comm = Comm::new(new, copy_items(old));
    let ghost mut done: Seq<(Order, T)> = seq![];
    loop
        invariant
            done + comm.rest() == steps,
            all@ == all_of(done, heed_deletions),
            additions@ == adds_of(done),
            deletions@ == dels_of(done),
        ensures
            done == steps,
            all@ == all_of(done, heed_deletions),
            additions@ == adds_of(done),
            deletions@ == dels_of(done),
        decreases comm.rest().len(),
    {
        let ghost before = comm.rest();
        match comm.next() {
            None => {
                assert(done =~= steps);
                break ;
            },
            Some((o, x)) => {
                proof {
                    let s = (o, x);
                    assert(done.push(s).drop_last() =~= done);
                    assert(done.push(s) + comm.rest() =~= done + before);
                    done = done.push(s);
                }
                match o {
                    Order::Equal => {
                        all.push(x);
                    },
                    Order::Less => {
                        additions.push(x.duplicate());
                        all.push(x);
                    },
                    Order::Greater => {
                        deletions.push(x.duplicate());
                        if !heed_deletions {
                            all.push(x);
                        }
                    },
                }
                assert(all@ =~= all_of(done, heed_deletions));
                assert(additions@ =~= adds_of(done));
                assert(deletions@ =~= dels_of(done));
            },
        }
    }
    (all, additions, deletions)
}

/// The outcome of comparing fetched contents with stored ones: the merged contents, the
/// additions, the deletions, and whether the merged contents must be written back.
pub struct Synced<C> {
    pub all: C,
    pub additions: C,
    pub deletions: C,
    pub write_back: bool,
}

/// What `comm_map` leaves under key `k`, for boards `n` (new) and `o` (old).
pub open spec fn comm_slot_ok<K: BoardKey, T: Ordered>(
    n: Board<K, T>,
    o: Board<K, T>,
    all: Board<K, T>,
    adds: Board<K, T>,
    dels: Board<K, T>,
    o_after: Board<K, T>,
    heed_deletions: bool,
    k: K,
) -> bool {
    if n.slot(k) is None && o.slot(k) is None {
        &&& all.slot(k) is None
        &&& adds.slot(k) is None
        &&& dels.slot(k) is None
        &&& o_after.slot(k) is None
    } else {
        let steps = comm_seq(n.items(k), o.items(k));
        &&& all.slot(k) == Some(all_of(steps, heed_deletions))
        &&& adds.slot(k) == Some(adds_of(steps))
        &&& dels.slot(k) == Some(dels_of(steps))
        &&& o_after.slot(k) == Some(o.items(k))
    }
}

/// Compares each list of a board with the old board's list under the same key, a missing list
/// counting as empty. Every key present in either board is present in all three results, and
/// gets an empty list in `old` if it had none.
pub fn comm_map<K: BoardKey, T: Ordered>(
    new: Board<K, T>,
    prev: &mut Board<K, T>,
    heed_deletions: bool,
) -> (res: (Board<K, T>, Board<K, T>, Board<K, T>))
    ensures
        forall|k: K|
            #![trigger res.0.slot(k)]
            comm_slot_ok(new, *old(prev), res.0, res.1, res.2, *final(prev), heed_deletions, k),
{
    let ghost n0 = new;
    let ghost o0 = *prev;
    let mut new = new;
    let mut all: Board<K, T> = Board::new();
    let mut additions: Board<K, T> = Board::new();
    let mut deletions: Board<K, T> = Board::new();
    let n = K::size();
    for i in 0..n
        invariant
            n == K::count(),
            forall|k: K|
                k.rank() < i ==> #[trigger] comm_slot_ok(
                    n0,
                    o0,
                    all,
                    additions,
                    deletions,
                    *prev,
                    heed_deletions,
                    k,
                ),
            forall|k: K|
                k.rank() >= i ==> {
                    &&& #[trigger] new.slot(k) == n0.slot(k)
                    &&& prev.slot(k) == o0.slot(k)
                    &&& all.slot(k) is None
                    &&& additions.slot(k) is None
                    &&& deletions.slot(k) is None
                },
    {
        let k = K::from_index(i);
        assert(new.slot(k) == n0.slot(k));
        let ghost all_p = all;
        let ghost adds_p = additions;
        let ghost dels_p = deletions;
        let ghost prev_p = *prev;
        let nv = new.remove(k);
        let present_old = prev.get(&k).is_some();
        if nv.is_some() || present_old {
            let nvv = match nv {
                Some(v) => v,
                None => Vec::new(),
            };
            let empty: Vec<T> = Vec::new();
            let (a, d, l) = match prev.get(&k) {
                Some(ov) => comm_list(nvv, ov, heed_deletions),
                None => comm_list(nvv, &empty, heed_deletions),
            };
            assert(nvv@ == n0.items(k));
            all.insert(k, a);
            additions.insert(k, d);
            deletions.insert(k, l);
            prev.or_insert_empty(k);
            assert(comm_slot_ok(n0, o0, all, additions, deletions, *prev, heed_deletions, k));
        } else {
            assert(comm_slot_ok(n0, o0, all, additions, deletions, *prev, heed_deletions, k));
        }
        assert forall|j: K| j.rank() < i + 1 implies #[trigger] comm_slot_ok(
            n0,
            o0,
            all,
            additions,
            deletions,
            *prev,
            heed_deletions,
            j,
        ) by {
            if j.rank() == i {
                K::lemma_rank_injective(j, k);
            } else {
                assert(comm_slot_ok(n0, o0, all_p, adds_p, dels_p, prev_p, heed_deletions, j));
                assert(j != k);
                assert(all.slot(j) == all_p.slot(j));
                assert(additions.slot(j) == adds_p.slot(j));
                assert(deletions.slot(j) == dels_p.slot(j));
                assert(prev.slot(j) == prev_p.slot(j));
            }
        }
        assert forall|j: K| j.rank() >= i + 1 implies {
            &&& #[trigger] new.slot(j) == n0.slot(j)
            &&& prev.slot(j) == o0.slot(j)
            &&& all.slot(j) is None
            &&& additions.slot(j) is None
            &&& deletions.slot(j) is None
        } by {
            assert(j != k);
            assert(all_p.slot(j) is None);
        }
    }
    assert forall|k: K| #[trigger] comm_slot_ok(
        n0,
        o0,
        all,
        additions,
        deletions,
        *prev,
        heed_deletions,
        k,
    ) by {
        K::lemma_rank_bound(k);
    }
    (all, additions, deletions)
}

/// Compares a fetched list with the stored one; the merged list is to be written back when
/// anything was added or deleted.
pub fn update_list<T: Ordered>(new: Vec<T>, prev: &Vec<T>, heed_deletions: bool) -> (res: Synced<
    Vec<T>,
>)
    ensures
        res.all@ == all_of(comm_seq(new@, prev@), heed_deletions),
        res.additions@ == adds_of(comm_seq(new@, prev@)),
        res.deletions@ == dels_of(comm_seq(new@, prev@)),
        res.write_back == !(res.additions@.len() == 0 && res.deletions@.len() == 0),
{
    let (all, additions, deletions) = comm_list(new, prev, heed_deletions);
    let write_back = !(additions.len() == 0 && deletions.len() == 0);
    Synced { all, additions, deletions, write_back }
}

/// Compares a fetched board with the stored one; the merged board is to be written back when
/// the additions or the deletions hold any key.
pub fn update_map<K: BoardKey, T: Ordered>(
    new: Board<K, T>,
    prev: &mut Board<K, T>,
    heed_deletions: bool,
) -> (res: Synced<Board<K, T>>)
    ensures
        forall|k: K|
            #![trigger res.all.slot(k)]
            comm_slot_ok(
                new,
                *old(prev),
                res.all,
                res.additions,
                res.deletions,
                *final(prev),
                heed_deletions,
                k,
            ),
        res.write_back == !((forall|k: K| #[trigger] res.additions.slot(k) is None) && (forall|
            k: K,
        | #[trigger] res.deletions.slot(k) is None)),
{
    let (all, additions, deletions) = comm_map(new, prev, heed_deletions);
    let write_back = !(additions.is_empty() && deletions.is_empty());
    Synced { all, additions, deletions, write_back }
}

/// The statement that stores a value under a key: an update when the key is already stored,
/// else an insertion.
pub fn write_statement(stored: bool) -> (r: String)
    ensures
        r@ == if stored {
            "UPDATE blobs SET val = $2 WHERE key = $1"@
        } else {
            "INSERT INTO blobs(key,val) VALUES($1,$2)"@
        },
{
    if stored {
        lit("UPDATE blobs SET val = $2 WHERE key = $1")
    } else {
        lit("INSERT INTO blobs(key,val) VALUES($1,$2)")
    }
}

/// A write must have changed exactly one row; else it fails with `DbWriteNopped` naming the key.
pub fn check_write(k: &str, updates: u64) -> (r: Result<u64, Error>)
    ensures
        match r {
            Ok(n) => updates == 1 && n == 1,
            Err(e) => updates != 1 && e is DbWriteNopped && e->DbWriteNopped_0@ == k@,
        },
{
    if updates == 1 {
        Ok(updates)
    } else {
        Err(Error::DbWriteNopped(lit(k)))
    }
}

} // verus!
