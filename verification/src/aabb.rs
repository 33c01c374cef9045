use vstd::prelude::*;
use crate::order::{compares_greater, is_greater, obeys_order};

verus! {

/// Index of the element that a left fold with "keep the accumulator unless it
/// compares greater" ends on, over the first `n` elements of `s`.
/// Incomparable pairs count as equal, so they keep the accumulator.
pub open spec fn min_fold_index<S: PartialOrd>(s: Seq<S>, n: nat) -> nat
    decreases n,
{
    if n <= 1 {
        0
    } else {
        let prev = min_fold_index(s, (n - 1) as nat);
        if compares_greater(s[prev as int], s[n - 1]) {
            (n - 1) as nat
        } else {
            prev
        }
    }
}

/// Index of the element that a left fold with "take the new element unless the
/// accumulator compares greater" ends on, over the first `n` elements of `s`.
/// Incomparable pairs count as equal, so the later element wins.
pub open spec fn max_fold_index<S: PartialOrd>(s: Seq<S>, n: nat) -> nat
    decreases n,
{
    if n <= 1 {
        0
    } else {
        let prev = max_fold_index(s, (n - 1) as nat);
        if compares_greater(s[prev as int], s[n - 1]) {
            prev
        } else {
            (n - 1) as nat
        }
    }
}

/// The smallest element under a partial order, treating incomparable values as
/// equal; among equal values the first one wins. `None` for no elements.
pub fn partial_min<S: PartialOrd>(items: Vec<S>) -> (r: Option<S>)
    ensures
        items@.len() == 0 <==> r is None,
        r is Some ==> exists|i: int| 0 <= i < items@.len() && r == Some(items@[i]),
        obeys_order::<S>() && items@.len() > 0 ==> r == Some(
            items@[min_fold_index(items@, items@.len()) as int],
        ),
{
    let n = items.len();
    if n == 0 {
        return None;
    }
    let mut best: usize = 0;
    let mut i: usize = 1;
    while i < n
        invariant
            n == items@.len(),
            1 <= i <= n,
            best < i,
            obeys_order::<S>() ==> best == min_fold_index(items@, i as nat),
        decreases n - i,
    {
        if is_greater(&items[best], &items[i]) {
            best = i;
        }
        i = i + 1;
    }
    let mut items = items;
    let ghost old_items = items@;
    let r = items.swap_remove(best);
    assert(r == old_items[best as int]);
    Some(r)
}

/// The largest element under a partial order, treating incomparable values as
/// equal; among equal values the last one wins. `None` for no elements.
pub fn partial_max<S: PartialOrd>(items: Vec<S>) -> (r: Option<S>)
    ensures
        items@.len() == 0 <==> r is None,
        r is Some ==> exists|i: int| 0 <= i < items@.len() && r == Some(items@[i]),
        obeys_order::<S>() && items@.len() > 0 ==> r == Some(
            items@[max_fold_index(items@, items@.len()) as int],
        ),
{
    let n = items.len();
    if n == 0 {
        return None;
    }
    let mut best: usize = 0;
    let mut i: usize = 1;
    while i < n
        invariant
            n == items@.len(),
            1 <= i <= n,
            best < i,
            obeys_order::<S>() ==> best == max_fold_index(items@, i as nat),
        decreases n - i,
    {
        if !is_greater(&items[best], &items[i]) {
            best = i;
        }
        i = i + 1;
    }
    let mut items = items;
    let ghost old_items = items@;
    let r = items.swap_remove(best);
    assert(r == old_items[best as int]);
    Some(r)
}

/// Over integers, `partial_min` picks the least element, and the first one
/// among several equal least elements: the fold index lies in range, no
/// element is smaller, and every earlier element is strictly larger.
pub proof fn law_partial_min_is_first_least(s: Seq<i64>, n: nat)
    requires
        1 <= n <= s.len(),
    ensures
        min_fold_index(s, n) < n,
        forall|j: int| 0 <= j < n ==> s[min_fold_index(s, n) as int] <= #[trigger] s[j],
        forall|j: int| 0 <= j < min_fold_index(s, n) ==> s[min_fold_index(s, n) as int] < #[trigger] s[j],
    decreases n,
{
    if n > 1 {
        law_partial_min_is_first_least(s, (n - 1) as nat);
    }
}

/// Over integers, `partial_max` picks the greatest element, and the last one
/// among several equal greatest elements.
pub proof fn law_partial_max_is_last_greatest(s: Seq<i64>, n: nat)
    requires
        1 <= n <= s.len(),
    ensures
        max_fold_index(s, n) < n,
        forall|j: int| 0 <= j < n ==> #[trigger] s[j] <= s[max_fold_index(s, n) as int],
        forall|j: int| max_fold_index(s, n) < j < n ==> #[trigger] s[j] < s[max_fold_index(s, n) as int],
    decreases n,
{
    if n > 1 {
        law_partial_max_is_last_greatest(s, (n - 1) as nat);
    }
}

} // verus!
