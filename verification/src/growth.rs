//! The rule by which the array's capacity evolves.
//!
//! An array without storage grows to one slot, any other array to twice its
//! slots, and it grows only when a push finds it full. A pop never gives
//! capacity back.

use vstd::layout::size_of;
use vstd::prelude::*;

verus! {

/// The capacity that growing gives an array of `capacity` slots.
pub open spec fn next_capacity(capacity: nat) -> nat {
    if capacity == 0 {
        1
    } else {
        2 * capacity
    }
}

/// Whether storage for `capacity` elements of `T` can be asked for at all:
/// its size in bytes may not exceed `isize::MAX`.
pub open spec fn fits<T>(capacity: nat) -> bool {
    capacity * size_of::<T>() <= isize::MAX
}

/// Decides [`fits`] at run time.
pub fn storage_fits<T>(capacity: usize) -> (ok: bool)
    ensures
        ok == fits::<T>(capacity as nat),
{
    match capacity.checked_mul(core::mem::size_of::<T>()) {
        Some(bytes) => bytes <= isize::MAX as usize,
        None => false,
    }
}

/// Computes [`next_capacity`]. The capacity of an array that exists is at
/// most `isize::MAX`, so doubling it cannot overflow.
pub fn grown_capacity(capacity: usize) -> (next: usize)
    requires
        capacity <= isize::MAX,
    ensures
        next == next_capacity(capacity as nat),
{
    if capacity == 0 {
        1
    } else {
        capacity * 2
    }
}

/// The capacity after a push onto an array of `len` elements in `capacity`
/// slots.
pub open spec fn capacity_after_push(len: nat, capacity: nat) -> nat {
    if len == capacity {
        next_capacity(capacity)
    } else {
        capacity
    }
}

/// One operation on an array, seen by what it does to length and capacity.
pub enum Step {
    Push,
    Pop,
}

/// The length and the capacity of an array.
pub struct Shape {
    pub len: nat,
    pub capacity: nat,
}

impl Shape {
    /// The shape of a new array: no elements, no storage.
    pub open spec fn empty() -> Shape {
        Shape { len: 0, capacity: 0 }
    }

    /// No more elements than slots.
    pub open spec fn has_room(self) -> bool {
        self.len <= self.capacity
    }

    /// The shape after one operation.
    pub open spec fn after(self, step: Step) -> Shape {
        match step {
            Step::Push => Shape {
                len: self.len + 1,
                capacity: capacity_after_push(self.len, self.capacity),
            },
            Step::Pop => Shape {
                len: if self.len == 0 {
                    0
                } else {
                    (self.len - 1) as nat
                },
                capacity: self.capacity,
            },
        }
    }

    /// The shape after a run of operations, first operation first.
    pub open spec fn after_all(self, steps: Seq<Step>) -> Shape
        decreases steps.len(),
    {
        if steps.len() == 0 {
            self
        } else {
            self.after(steps.first()).after_all(steps.drop_first())
        }
    }
}

/// A run of `n` pushes.
pub open spec fn pushes(n: nat) -> Seq<Step> {
    Seq::new(n, |i: int| Step::Push)
}

/// A capacity whose storage can be asked for is itself at most
/// `isize::MAX`, as long as an element takes up space; so twice a capacity
/// that exists is still a `usize`.
pub proof fn lemma_fitting_capacity_is_small<T>(capacity: nat)
    requires
        size_of::<T>() != 0,
        fits::<T>(capacity),
    ensures
        capacity <= isize::MAX,
{
    assert(capacity <= capacity * size_of::<T>()) by (nonlinear_arith)
        requires
            size_of::<T>() >= 1,
    ;
}

/// No interleaving of pushes and pops lets the length exceed the capacity,
/// and none lets the capacity decrease.
pub proof fn lemma_length_stays_within_capacity(start: Shape, steps: Seq<Step>)
    requires
        start.has_room(),
    ensures
        start.after_all(steps).has_room(),
        start.capacity <= start.after_all(steps).capacity,
    decreases steps.len(),
{
    if steps.len() > 0 {
        lemma_length_stays_within_capacity(start.after(steps.first()), steps.drop_first());
    }
}

/// After `n` pushes and no pops a new array holds `n` elements in at least
/// `n` slots, and in fewer than twice as many.
pub proof fn lemma_shape_after_pushes(n: nat)
    ensures
        Shape::empty().after_all(pushes(n)).len == n,
        Shape::empty().after_all(pushes(n)).capacity >= n,
        n > 0 ==> Shape::empty().after_all(pushes(n)).capacity < 2 * n,
{
    lemma_pushes_from(Shape::empty(), n);
}

/// Pushes onto an array that is new, or more than half full, keep it so.
proof fn lemma_pushes_from(start: Shape, n: nat)
    requires
        start.has_room(),
        start.len == 0 ==> start.capacity == 0,
        start.len > 0 ==> start.capacity < 2 * start.len,
    ensures
        start.after_all(pushes(n)).len == start.len + n,
        start.after_all(pushes(n)).has_room(),
        start.len + n > 0 ==> start.after_all(pushes(n)).capacity < 2 * (start.len + n),
    decreases n,
{
    if n > 0 {
        assert(pushes(n).drop_first() =~= pushes((n - 1) as nat));
        lemma_pushes_from(start.after(Step::Push), (n - 1) as nat);
    }
}

} // verus!
