//! The sequence model shared by the containers of this crate.
//!
//! A container's view is the sequence of its elements, oldest first. A push
//! appends at the end; a pop takes the last element away, or reports that
//! there is none. The laws below follow from that alone, so they hold of
//! every container whose `push` and `pop` are stated over these functions.

use vstd::prelude::*;

verus! {

/// What a pop hands out of contents `s`: the last element, or nothing.
pub open spec fn popped<T>(s: Seq<T>) -> Option<T> {
    if s.len() == 0 {
        None
    } else {
        Some(s.last())
    }
}

/// What a pop leaves of contents `s`: everything but the last element.
pub open spec fn after_pop<T>(s: Seq<T>) -> Seq<T> {
    if s.len() == 0 {
        s
    } else {
        s.drop_last()
    }
}

/// The contents after pushing each of `values`, in order, onto `base`.
pub open spec fn push_all<T>(base: Seq<T>, values: Seq<T>) -> Seq<T>
    decreases values.len(),
{
    if values.len() == 0 {
        base
    } else {
        push_all(base.push(values.first()), values.drop_first())
    }
}

/// The results of `n` pops in a row, first pop first.
pub open spec fn pop_results<T>(s: Seq<T>, n: nat) -> Seq<Option<T>>
    decreases n,
{
    if n == 0 {
        Seq::empty()
    } else {
        seq![popped(s)] + pop_results(after_pop(s), (n - 1) as nat)
    }
}

/// The contents left after `n` pops in a row.
pub open spec fn after_pops<T>(s: Seq<T>, n: nat) -> Seq<T>
    decreases n,
{
    if n == 0 {
        s
    } else {
        after_pops(after_pop(s), (n - 1) as nat)
    }
}

/// Pushing a run of values appends the run: the length grows by the number
/// of pushes, and whatever was there before stays where it was.
pub proof fn lemma_push_all_appends<T>(base: Seq<T>, values: Seq<T>)
    ensures
        push_all(base, values) == base + values,
        push_all(base, values).len() == base.len() + values.len(),
        forall|i: int| 0 <= i < base.len() ==> push_all(base, values)[i] == base[i],
    decreases values.len(),
{
    if values.len() > 0 {
        lemma_push_all_appends(base.push(values.first()), values.drop_first());
    }
}

/// After pushing `values` in order onto an empty container, there are as
/// many elements as pushes, and index `i` holds the `i`-th value pushed.
pub proof fn lemma_index_after_pushes<T>(values: Seq<T>, i: int)
    requires
        0 <= i < values.len(),
    ensures
        push_all(Seq::empty(), values).len() == values.len(),
        push_all(Seq::empty(), values)[i] == values[i],
{
    lemma_push_all_appends(Seq::<T>::empty(), values);
}

/// Values pushed earlier survive later pushes: pushing more moves and
/// changes none of them, however often the storage behind them had to grow
/// on the way.
pub proof fn lemma_earlier_pushes_survive<T>(earlier: Seq<T>, later: Seq<T>, i: int)
    requires
        0 <= i < earlier.len(),
    ensures
        push_all(push_all(Seq::empty(), earlier), later)[i] == earlier[i],
{
    lemma_push_all_appends(Seq::<T>::empty(), earlier);
    lemma_push_all_appends(push_all(Seq::empty(), earlier), later);
}

/// Last in, first out: after pushing `values` onto `base`, the next `n`
/// pops, for any `n` up to the number of pushes, return the values in the
/// reverse of the order in which they were pushed, and leave `base` with
/// the values that were not popped.
pub proof fn lemma_pops_reverse_pushes<T>(base: Seq<T>, values: Seq<T>, n: nat)
    requires
        n <= values.len(),
    ensures
        pop_results(push_all(base, values), n).len() == n,
        forall|i: int|
            0 <= i < n ==> pop_results(push_all(base, values), n)[i] == Some(
                values[values.len() - 1 - i],
            ),
        after_pops(push_all(base, values), n) == base + values.take(values.len() - n),
{
    lemma_push_all_appends(base, values);
    lemma_pops_of_appended(base, values, n);
}

/// The same law on contents written as a concatenation.
proof fn lemma_pops_of_appended<T>(base: Seq<T>, values: Seq<T>, n: nat)
    requires
        n <= values.len(),
    ensures
        pop_results(base + values, n).len() == n,
        forall|i: int|
            0 <= i < n ==> pop_results(base + values, n)[i] == Some(values[values.len() - 1 - i]),
        after_pops(base + values, n) == base + values.take(values.len() - n),
    decreases n,
{
    if n > 0 {
        let shorter = values.drop_last();
        assert(after_pop(base + values) =~= base + shorter);
        lemma_pops_of_appended(base, shorter, (n - 1) as nat);
    }
}

/// A pop on an empty container returns nothing and leaves it empty, and so
/// does every pop after it.
pub proof fn lemma_pops_on_empty<T>(n: nat)
    ensures
        popped(Seq::<T>::empty()) == None::<T>,
        after_pop(Seq::<T>::empty()) == Seq::<T>::empty(),
        pop_results(Seq::<T>::empty(), n).len() == n,
        forall|i: int| 0 <= i < n ==> pop_results(Seq::<T>::empty(), n)[i] == None::<T>,
        after_pops(Seq::<T>::empty(), n) == Seq::<T>::empty(),
    decreases n,
{
    if n > 0 {
        lemma_pops_on_empty::<T>((n - 1) as nat);
    }
}

} // verus!
