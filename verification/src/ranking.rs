//! A stable sort over items that know their own rank.

use vstd::prelude::*;

verus! {

/// Something that can be put in order by a rank of its own.
pub trait Ranked: Sized {
    /// Whether this item may stand before `other`.
    spec fn ranks_up_to(&self, other: &Self) -> bool;

    /// Ranks are transitive.
    proof fn ranks_are_transitive(left: &Self, middle: &Self, right: &Self)
        requires
            left.ranks_up_to(middle),
            middle.ranks_up_to(right),
        ensures
            left.ranks_up_to(right),
    ;

    /// Any two ranks can be compared.
    proof fn ranks_are_total(left: &Self, right: &Self)
        ensures
            left.ranks_up_to(right) || right.ranks_up_to(left),
    ;

    /// Whether this item may stand before `other`.
    fn may_precede(&self, other: &Self) -> (result: bool)
        ensures
            result == self.ranks_up_to(other),
    ;
}

/// `sorted` with `item` put behind everything that may stand before it, as far back as its rank
/// allows.
pub open spec fn inserted<T: Ranked>(sorted: Seq<T>, item: T) -> Seq<T>
    decreases sorted.len(),
{
    if sorted.len() == 0 || sorted.last().ranks_up_to(&item) {
        sorted.push(item)
    } else {
        inserted(sorted.drop_last(), item).push(sorted.last())
    }
}

/// The items in the order of their ranks; items of one rank keep the order they came in.
pub open spec fn in_rank_order<T: Ranked>(items: Seq<T>) -> Seq<T>
    decreases items.len(),
{
    if items.len() == 0 {
        items
    } else {
        inserted(in_rank_order(items.drop_last()), items.last())
    }
}

proof fn lemma_inserted_at<T: Ranked>(sorted: Seq<T>, item: T, at: int)
    requires
        0 <= at <= sorted.len(),
        at > 0 ==> sorted[at - 1].ranks_up_to(&item),
        forall|k: int| at <= k < sorted.len() ==> !(#[trigger] sorted[k]).ranks_up_to(&item),
    ensures
        inserted(sorted, item) == sorted.insert(at, item),
    decreases sorted.len(),
{
    if at == sorted.len() {
        assert(sorted.insert(at, item) == sorted.push(item));
    } else {
        lemma_inserted_at(sorted.drop_last(), item, at);
        assert(sorted.insert(at, item) == sorted.drop_last().insert(at, item).push(sorted.last()));
    }
}

/// Sorts the items by rank; items of one rank keep the order they came in.
pub fn sort_by_rank<T: Ranked>(items: Vec<T>) -> (result: Vec<T>)
    ensures
        result@ == in_rank_order(items@),
{
    let ghost given = items@;
    let mut result: Vec<T> = Vec::new();
    let mut rest: Vec<T> = items;
    let mut pending: Vec<T> = Vec::new();
    while rest.len() > 0
        invariant
            rest@.len() + pending@.len() == given.len(),
            rest@ == given.take(rest@.len() as int),
            forall|k: int|
                0 <= k < pending@.len() ==> #[trigger] pending@[k] == given[given.len() - 1 - k],
        decreases rest@.len(),
    {
        let last: Option<T> = rest.pop();
        if let Some(item) = last {
            pending.push(item);
        }
        assert(rest@ == given.take(rest@.len() as int));
    }
    while pending.len() > 0
        invariant
            pending@.len() <= given.len(),
            result@ == in_rank_order(given.take(given.len() - pending@.len())),
            forall|k: int|
                0 <= k < pending@.len() ==> #[trigger] pending@[k] == given[given.len() - 1 - k],
        decreases pending@.len(),
    {
        let ghost done = given.len() - pending@.len();
        let next: Option<T> = pending.pop();
        if let Some(item) = next {
            let mut at: usize = result.len();
            while at > 0 && !result[at - 1].may_precede(&item)
                invariant
                    at <= result@.len(),
                    forall|k: int|
                        at <= k < result@.len() ==> !(#[trigger] result@[k]).ranks_up_to(&item),
                ensures
                    at <= result@.len(),
                    at > 0 ==> result@[at - 1].ranks_up_to(&item),
                    forall|k: int|
                        at <= k < result@.len() ==> !(#[trigger] result@[k]).ranks_up_to(&item),
                decreases at,
            {
                at = at - 1;
            }
            proof {
                lemma_inserted_at(result@, item, at as int);
                assert(item == given[done]);
                assert(given.take(done + 1).drop_last() == given.take(done));
            }
            result.insert(at, item);
        }
    }
    assert(given.take(given.len() as int) == given);
    result
}

/// Whether no item stands behind one that it should precede.
pub open spec fn is_ranked<T: Ranked>(items: Seq<T>) -> bool {
    forall|i: int, j: int|
        0 <= i < j < items.len() ==> #[trigger] items[i].ranks_up_to(
            &items[j],
        )
}

proof fn lemma_inserted_is_ranked<T: Ranked>(sorted: Seq<T>, item: T)
    requires
        is_ranked(sorted),
    ensures
        is_ranked(inserted(sorted, item)),
        inserted(sorted, item).to_multiset() == sorted.to_multiset().insert(item),
        inserted(sorted, item).len() == sorted.len() + 1,
        forall|k: int|
            0 <= k < inserted(sorted, item).len() ==> (#[trigger] inserted(sorted, item)[k] == item
                || sorted.contains(inserted(sorted, item)[k])),
    decreases sorted.len(),
{
    broadcast use vstd::seq_lib::group_to_multiset_ensures;

    if sorted.len() == 0 || sorted.last().ranks_up_to(&item) {
        let result = sorted.push(item);
        assert forall|i: int, j: int| 0 <= i < j < result.len() implies #[trigger] result[i].ranks_up_to(
            &result[j],
        ) by {
            if j == sorted.len() && i < sorted.len() - 1 {
                T::ranks_are_transitive(&sorted[i], &sorted.last(), &item);
            }
        }
        assert forall|k: int| 0 <= k < result.len() implies (#[trigger] result[k] == item
            || sorted.contains(result[k])) by {
            if k < sorted.len() {
                assert(sorted[k] == result[k]);
            }
        }
    } else {
        let front = sorted.drop_last();
        let last = sorted.last();
        lemma_inserted_is_ranked(front, item);
        let inner = inserted(front, item);
        let result = inner.push(last);
        T::ranks_are_total(&item, &last);
        assert forall|i: int, j: int| 0 <= i < j < result.len() implies #[trigger] result[i].ranks_up_to(
            &result[j],
        ) by {
            if j == inner.len() {
                if inner[i] != item {
                    assert(front.contains(inner[i]));
                    let k = front.index_of(inner[i]);
                    assert(sorted[k] == inner[i]);
                    assert(sorted[k].ranks_up_to(&sorted[sorted.len() - 1]));
                }
            }
        }
        assert(front.push(last) == sorted);
        assert(result.to_multiset() == sorted.to_multiset().insert(item));
        assert forall|k: int| 0 <= k < result.len() implies (#[trigger] result[k] == item
            || sorted.contains(result[k])) by {
            if k < inner.len() && inner[k] != item {
                assert(front.contains(inner[k]));
                let m = front.index_of(inner[k]);
                assert(sorted[m] == inner[k]);
            } else if k == inner.len() {
                assert(sorted[sorted.len() - 1] == result[k]);
            }
        }
    }
}

/// Sorting puts every item behind those that may stand before it, and neither loses an item nor
/// adds one.
pub proof fn law_sorting_orders_and_keeps_items<T: Ranked>(items: Seq<T>)
    ensures
        is_ranked(in_rank_order(items)),
        in_rank_order(items).to_multiset() == items.to_multiset(),
        in_rank_order(items).len() == items.len(),
    decreases items.len(),
{
    broadcast use vstd::seq_lib::group_to_multiset_ensures;

    if items.len() > 0 {
        law_sorting_orders_and_keeps_items(items.drop_last());
        lemma_inserted_is_ranked(in_rank_order(items.drop_last()), items.last());
        assert(items.drop_last().push(items.last()) == items);
    }
}

/// Sorting keeps the order of items that rank alike: an item put in stays behind the last one where
/// that may stand before it, and moves before it where it may not.
pub proof fn law_equal_ranks_keep_their_order<T: Ranked>(sorted: Seq<T>, item: T, later: T)
    ensures
        in_rank_order(Seq::<T>::empty()) == Seq::<T>::empty(),
        in_rank_order(seq![item]) == seq![item],
        item.ranks_up_to(&later) ==> in_rank_order(seq![item, later]) == seq![item, later],
        !item.ranks_up_to(&later) ==> in_rank_order(seq![item, later]) == seq![later, item],
        sorted.len() > 0 && sorted.last().ranks_up_to(&item) ==> inserted(sorted, item)
            == sorted.push(item),
        sorted.len() > 0 && !sorted.last().ranks_up_to(&item) ==> inserted(sorted, item).last()
            == sorted.last() && inserted(sorted, item).drop_last() == inserted(
            sorted.drop_last(),
            item,
        ),
{
    reveal_with_fuel(in_rank_order, 3);
    reveal_with_fuel(inserted, 3);
    assert(seq![item].drop_last() =~= Seq::<T>::empty());
    assert(seq![item, later].drop_last() =~= seq![item]);
    assert(in_rank_order(seq![item]) =~= seq![item]);
    assert(seq![item].push(later) =~= seq![item, later]);
    assert(seq![later].push(item) =~= seq![later, item]);
    assert(Seq::<T>::empty().push(later) =~= seq![later]);
    if sorted.len() > 0 && !sorted.last().ranks_up_to(&item) {
        assert(inserted(sorted, item).drop_last() =~= inserted(sorted.drop_last(), item));
    }
}

/// Items are put in one after the other: sorting one more is putting it in among those sorted before.
pub proof fn law_items_are_put_in_one_by_one<T: Ranked>(items: Seq<T>, item: T)
    ensures
        in_rank_order(items.push(item)) == inserted(in_rank_order(items), item),
        inserted(Seq::empty(), item) == seq![item],
        is_ranked(items) ==> forall|i: int, j: int|
            0 <= i < j < items.len() ==> #[trigger] items[i].ranks_up_to(&items[j]),
{
    assert(items.push(item).drop_last() =~= items);
    assert(inserted(Seq::empty(), item) =~= seq![item]);
}

} // verus!
