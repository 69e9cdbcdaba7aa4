//! Lists from which elements leave.
use vstd::prelude::*;
use vstd::set_lib::{lemma_int_range, lemma_len_subset, lemma_map_size, set_int_range};

verus! {

/// Keeps the elements that satisfy the predicate, in their order.
pub(crate) fn retain<T, F: Fn(&T) -> bool>(
    list: &mut Vec<T>,
    keep: F,
    Ghost(wanted): Ghost<spec_fn(T) -> bool>,
)
    requires
        forall|x: &T| #[trigger] keep.requires((x,)),
        forall|x: &T, b: bool| #[trigger] keep.ensures((x,), b) ==> b == wanted(*x),
    ensures
        final(list)@ == old(list)@.filter(wanted),
{
    let ghost all = list@;
    let ghost mut seen: int = 0;
    let mut i: usize = 0;
    proof {
        assert(all.take(0) =~= Seq::<T>::empty());
        reveal(Seq::filter);
        assert(list@ =~= all.take(0).filter(wanted) + all.skip(0));
    }
    while i < list.len()
        invariant
            forall|x: &T| #[trigger] keep.requires((x,)),
            forall|x: &T, b: bool| #[trigger] keep.ensures((x,), b) ==> b == wanted(*x),
            0 <= seen <= all.len(),
            i == all.take(seen).filter(wanted).len(),
            list@ == all.take(seen).filter(wanted) + all.skip(seen),
        decreases all.len() - seen,
    {
        proof {
            assert(seen < all.len());
            assert(list@[i as int] == all.skip(seen)[0]);
            assert(all.take(seen + 1).drop_last() =~= all.take(seen));
            assert(all.take(seen + 1).last() == all[seen]);
            reveal(Seq::filter);
            assert(all.skip(seen).skip(1) =~= all.skip(seen + 1));
        }
        let ghost before = list@;
        if keep(&list[i]) {
            i += 1;
            assert(list@ =~= all.take(seen + 1).filter(wanted) + all.skip(seen + 1));
        } else {
            list.remove(i);
            assert(list@ =~= before.remove(i as int));
            assert(list@ =~= all.take(seen + 1).filter(wanted) + all.skip(seen + 1));
        }
        proof {
            seen = seen + 1;
        }
    }
    assert(all.skip(seen) =~= Seq::<T>::empty());
    assert(all.take(seen) =~= all);
    assert(list@ =~= all.filter(wanted));
}

/// What remains was there, satisfies the predicate, and is all that does.
pub proof fn filter_facts<T>(list: Seq<T>, wanted: spec_fn(T) -> bool)
    ensures
        list.filter(wanted).len() <= list.len(),
        forall|i: int|
            0 <= i < list.filter(wanted).len() ==> wanted(#[trigger] list.filter(wanted)[i])
                && list.contains(list.filter(wanted)[i]),
        forall|i: int|
            0 <= i < list.len() && wanted(#[trigger] list[i]) ==> list.filter(wanted).contains(
                list[i],
            ),
    decreases list.len(),
{
    reveal(Seq::filter);
    if list.len() > 0 {
        let rest = list.drop_last();
        filter_facts(rest, wanted);
        assert forall|i: int| 0 <= i < list.filter(wanted).len() implies wanted(
            #[trigger] list.filter(wanted)[i],
        ) && list.contains(list.filter(wanted)[i]) by {
            if i < rest.filter(wanted).len() {
                let x = rest.filter(wanted)[i];
                assert(list.filter(wanted)[i] == x);
                let k = choose|k: int| 0 <= k < rest.len() && rest[k] == x;
                assert(list[k] == x);
            } else {
                assert(list.filter(wanted)[i] == list.last());
                assert(list[list.len() - 1] == list.last());
            }
        }
        assert forall|i: int|
            0 <= i < list.len() && wanted(#[trigger] list[i]) implies list.filter(wanted).contains(
            list[i],
        ) by {
            if i < rest.len() {
                assert(rest[i] == list[i]);
                let k = choose|k: int|
                    0 <= k < rest.filter(wanted).len() && rest.filter(wanted)[k] == rest[i];
                assert(list.filter(wanted)[k] == list[i]);
            } else {
                assert(list.filter(wanted).last() == list[i]);
            }
        }
    }
}

/// A filter that everything passes changes nothing.
pub proof fn filter_all<T>(list: Seq<T>, wanted: spec_fn(T) -> bool)
    requires
        forall|i: int| 0 <= i < list.len() ==> wanted(#[trigger] list[i]),
    ensures
        list.filter(wanted) == list,
    decreases list.len(),
{
    reveal(Seq::filter);
    if list.len() > 0 {
        let rest = list.drop_last();
        assert forall|i: int| 0 <= i < rest.len() implies wanted(#[trigger] rest[i]) by {
            assert(rest[i] == list[i]);
        }
        filter_all(rest, wanted);
        assert(wanted(list[list.len() - 1]));
        assert(rest.push(list.last()) =~= list);
    } else {
        assert(list.filter(wanted) =~= list);
    }
}

/// What holds between every two elements still does between those that remain.
pub proof fn filter_keeps_pairs<T>(
    list: Seq<T>,
    wanted: spec_fn(T) -> bool,
    related: spec_fn(T, T) -> bool,
)
    requires
        forall|i: int, j: int| 0 <= i < j < list.len() ==> related(#[trigger] list[i], #[trigger] list[j]),
    ensures
        forall|i: int, j: int|
            0 <= i < j < list.filter(wanted).len() ==> related(
                #[trigger] list.filter(wanted)[i],
                #[trigger] list.filter(wanted)[j],
            ),
    decreases list.len(),
{
    reveal(Seq::filter);
    if list.len() > 0 {
        let rest = list.drop_last();
        filter_keeps_pairs(rest, wanted, related);
        filter_facts(rest, wanted);
        assert forall|i: int, j: int| 0 <= i < j < list.filter(wanted).len() implies related(
            #[trigger] list.filter(wanted)[i],
            #[trigger] list.filter(wanted)[j],
        ) by {
            if j < rest.filter(wanted).len() {
                assert(related(rest.filter(wanted)[i], rest.filter(wanted)[j]));
            } else {
                let x = rest.filter(wanted)[i];
                let k = choose|k: int| 0 <= k < rest.len() && rest[k] == x;
                assert(related(list[k], list[list.len() - 1]));
            }
        }
    }
}

/// So many numbers lie in a range at most as there are in it.
pub proof fn range_bounds_size(numbers: Set<u64>, low: int, count: int)
    requires
        numbers.finite(),
        count >= 0,
        forall|n: u64| #[trigger] numbers.contains(n) ==> low <= n < low + count,
    ensures
        numbers.len() <= count,
{
    let as_int = |n: u64| n as int;
    let images = numbers.map(as_int);
    assert(vstd::relations::injective_on(as_int, numbers));
    lemma_map_size(numbers, images, as_int);
    lemma_int_range(low, low + count);
    assert(images.subset_of(set_int_range(low, low + count))) by {
        assert forall|i: int| images.contains(i) implies set_int_range(low, low + count).contains(
            i,
        ) by {
            let n = choose|n: u64| numbers.contains(n) && i == as_int(n);
            assert(numbers.contains(n));
        }
    }
    lemma_len_subset(images, set_int_range(low, low + count));
}

} // verus!
