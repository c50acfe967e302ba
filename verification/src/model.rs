//! Mathematical views shared by the contracts of the whole library.

use vstd::prelude::*;

verus! {

/// The views of a sequence's elements, in order.
pub open spec fn views<T: View>(items: Seq<T>) -> Seq<T::V> {
    Seq::new(items.len(), |i: int| items[i]@)
}

/// The view of an optional value.
pub open spec fn view_opt<T: View>(item: Option<T>) -> Option<T::V> {
    match item {
        Some(x) => Some(x@),
        None => None,
    }
}

/// The views of pairs of strings, in order.
pub open spec fn pair_views(items: Seq<(String, String)>) -> Seq<(Seq<char>, Seq<char>)> {
    Seq::new(items.len(), |i: int| (items[i].0@, items[i].1@))
}

pub proof fn lemma_views_empty<T: View>()
    ensures
        views(Seq::<T>::empty()) == Seq::<T::V>::empty(),
{
    assert(views(Seq::<T>::empty()) =~= Seq::<T::V>::empty());
}

pub proof fn lemma_views_push<T: View>(items: Seq<T>, x: T)
    ensures
        views(items.push(x)) == views(items).push(x@),
{
    assert(views(items.push(x)) =~= views(items).push(x@));
}

pub proof fn lemma_views_add<T: View>(a: Seq<T>, b: Seq<T>)
    ensures
        views(a + b) == views(a) + views(b),
{
    assert(views(a + b) =~= views(a) + views(b));
}

pub proof fn lemma_views_remove<T: View>(items: Seq<T>, i: int)
    requires
        0 <= i < items.len(),
    ensures
        views(items.remove(i)) == views(items).remove(i),
{
    assert(views(items.remove(i)) =~= views(items).remove(i));
}

/// The index of the first element that satisfies `p`, or the length when none does.
pub open spec fn first_index<A>(items: Seq<A>, p: spec_fn(A) -> bool) -> int
    decreases items.len(),
{
    if items.len() == 0 {
        0
    } else if p(items[0]) {
        0
    } else {
        1 + first_index(items.drop_first(), p)
    }
}

/// `i` is the first index that satisfies `p` as soon as it satisfies it and none before does.
pub proof fn lemma_first_index<A>(items: Seq<A>, p: spec_fn(A) -> bool, i: int)
    requires
        0 <= i <= items.len(),
        i < items.len() ==> p(items[i]),
        forall|j: int| 0 <= j < i ==> !p(#[trigger] items[j]),
    ensures
        first_index(items, p) == i,
    decreases items.len(),
{
    if items.len() > 0 && i > 0 {
        assert(!p(items[0]));
        let rest = items.drop_first();
        assert forall|j: int| 0 <= j < i - 1 implies !p(#[trigger] rest[j]) by {
            assert(rest[j] == items[j + 1]);
        }
        lemma_first_index(rest, p, i - 1);
    }
}

/// The first index is no larger than the length.
pub proof fn lemma_first_index_bounds<A>(items: Seq<A>, p: spec_fn(A) -> bool)
    ensures
        0 <= first_index(items, p) <= items.len(),
    decreases items.len(),
{
    if items.len() > 0 && !p(items[0]) {
        lemma_first_index_bounds(items.drop_first(), p);
    }
}

/// The element at the first index satisfies `p`, and none before does.
pub proof fn lemma_first_index_found<A>(items: Seq<A>, p: spec_fn(A) -> bool)
    ensures
        first_index(items, p) < items.len() ==> p(items[first_index(items, p)]),
        forall|j: int| 0 <= j < first_index(items, p) ==> !p(#[trigger] items[j]),
    decreases items.len(),
{
    if items.len() > 0 && !p(items[0]) {
        let rest = items.drop_first();
        lemma_first_index_found(rest, p);
        lemma_first_index_bounds(rest, p);
        assert forall|j: int| 0 <= j < first_index(items, p) implies !p(#[trigger] items[j]) by {
            if j > 0 {
                assert(items[j] == rest[j - 1]);
            }
        }
    }
}

/// `items` without its first element that satisfies `p`.
pub open spec fn remove_first<A>(items: Seq<A>, p: spec_fn(A) -> bool) -> Seq<A> {
    let i = first_index(items, p);
    if i < items.len() {
        items.remove(i)
    } else {
        items
    }
}

} // verus!
