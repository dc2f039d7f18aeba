//! Picking the largest item of a list, for any type that can be compared.

use vstd::prelude::*;
use vstd::laws_cmp::obeys_partial_cmp_spec_properties;
use vstd::std_specs::cmp::PartialOrdSpec;
use core::cmp::Ordering;

verus! {

/// Whether `a` is greater than `b` in the order of `T`.
pub open spec fn exceeds<T: PartialOrd>(a: T, b: T) -> bool {
    a.partial_cmp_spec(&b) == Some(Ordering::Greater)
}

/// Whether comparing two values of `T` gives what the order of `T` says.
pub open spec fn compares_by_order<T: PartialOrd>() -> bool {
    T::obeys_partial_cmp_spec()
}

/// The item that a pass over `list` from its first item to its last is left
/// with, when it starts with the first and moves on to an item whenever that
/// item is greater than the one it holds. In a total order that is the
/// first of the greatest items.
pub open spec fn spec_largest<T: PartialOrd>(list: Seq<T>) -> T
    recommends
        list.len() > 0,
    decreases list.len(),
{
    if list.len() <= 1 {
        list[0]
    } else {
        let held = spec_largest(list.drop_last());
        if exceeds(list.last(), held) {
            list.last()
        } else {
            held
        }
    }
}

/// The largest item of a list that is not empty. The result is one of the
/// list's items.
pub fn largest<T: PartialOrd + Copy>(list: &[T]) -> (held: T)
    requires
        list@.len() > 0,
    ensures
        list@.contains(held),
        compares_by_order::<T>() ==> held == spec_largest(list@),
{
    let mut held = list[0];
    let mut i: usize = 1;
    assert(list@.take(1).drop_last() =~= list@.take(0));
    while i < list.len()
        invariant
            1 <= i <= list@.len(),
            list@.contains(held),
            compares_by_order::<T>() ==> held == spec_largest(list@.take(i as int)),
        decreases list@.len() - i,
    {
        let item = list[i];
        assert(list@.take(i + 1).drop_last() =~= list@.take(i as int));
        assert(list@.take(i + 1).last() == item);
        if item > held {
            held = item;
        }
        i = i + 1;
    }
    assert(list@.take(i as int) =~= list@);
    held
}

/// Whether the order of `T` is one: what is less one way round is greater
/// the other way round, and greater than greater is greater.
pub open spec fn orders<T: PartialOrd>() -> bool {
    obeys_partial_cmp_spec_properties::<T>()
}

/// In an order, no item of the list is greater than the one that the pass
/// is left with.
pub proof fn lemma_largest_is_not_exceeded<T: PartialOrd>(list: Seq<T>, i: int)
    requires
        orders::<T>(),
        0 <= i < list.len(),
    ensures
        !exceeds(list[i], spec_largest(list)),
    decreases list.len(),
{
    reveal(obeys_partial_cmp_spec_properties);
    let last = list.last();
    if list.len() <= 1 {
        assert(exceeds(last, last) ==> last.partial_cmp_spec(&last) == Some(Ordering::Less));
    } else {
        let held = spec_largest(list.drop_last());
        if i < list.len() - 1 {
            lemma_largest_is_not_exceeded(list.drop_last(), i);
            assert(list.drop_last()[i] == list[i]);
            assert(exceeds(list[i], last) && exceeds(last, held) ==> exceeds(list[i], held));
        } else {
            assert(exceeds(last, last) ==> last.partial_cmp_spec(&last) == Some(Ordering::Less));
        }
    }
}

} // verus!
