//! A growable contiguous array.
//!
//! [`Vector`] keeps its elements side by side in one allocation and counts
//! the slots it has asked storage for. A push into a full array first grows
//! the storage by the rule of [`crate::growth`]; a pop hands the last
//! element to the caller and keeps the storage. The occupied part is lent
//! out as a slice, which gives indexing and iteration.
//!
//! The element type must take up space: an array of zero-sized elements has
//! no meaningful capacity, and [`Vector::new`] does not accept one.
//!
//! When an array goes away, the elements still in it are dropped in index
//! order, each once, and then its storage is released. The buffer that the
//! array owns does both.
//!
//! An array can be sent to another thread, or shared with one, exactly when
//! its elements can. It does no locking of its own.

use crate::growth::{
    capacity_after_push, fits, grown_capacity, lemma_fitting_capacity_is_small, next_capacity,
    storage_fits, Shape, Step,
};
use crate::stack::{after_pop, popped};
use vstd::layout::size_of;
use vstd::prelude::*;

verus! {

/// Makes room in `buf` for `additional` more elements, through
/// `Vec::reserve_exact`.
///
/// Taken on trust from the standard library's documentation: the call keeps
/// the elements and their order, and it panics only if the capacity asked
/// for, length plus `additional`, overflows or exceeds `isize::MAX` bytes,
/// which the precondition excludes. (Running out of memory does not
/// panic: it aborts the process.)
#[verifier::external_body]
fn reserve_exact<T>(buf: &mut Vec<T>, additional: usize)
    requires
        old(buf)@.len() + additional <= usize::MAX,
        (old(buf)@.len() + additional) * size_of::<T>() <= isize::MAX,
    ensures
        final(buf)@ == old(buf)@,
{
    buf.reserve_exact(additional)
}

/// A growable array of `T`, viewed as the sequence of its elements in index
/// order.
pub struct Vector<T> {
    /// The elements, in index order, in one allocation.
    buf: Vec<T>,
    /// The number of slots that storage was last asked for.
    capacity: usize,
}

impl<T> View for Vector<T> {
    type V = Seq<T>;

    closed spec fn view(&self) -> Seq<T> {
        self.buf@
    }
}

impl<T> Vector<T> {
    /// The number of slots, as a specification.
    pub closed spec fn spec_capacity(&self) -> usize {
        self.capacity
    }

    /// The number of elements, as a specification.
    pub open spec fn spec_len(&self) -> usize {
        self@.len() as usize
    }

    /// Length and capacity together.
    pub open spec fn shape(&self) -> Shape {
        Shape { len: self@.len(), capacity: self.capacity() as nat }
    }

    /// What holds of every array that this module hands out: its elements
    /// take up space, there are no more of them than slots, and storage for
    /// that many slots can exist.
    pub open spec fn wf(&self) -> bool {
        &&& size_of::<T>() != 0
        &&& self.shape().has_room()
        &&& fits::<T>(self.capacity() as nat)
    }

    /// Whether a push can go ahead: the array has a free slot, or storage
    /// for the next capacity can be asked for.
    pub open spec fn can_push(&self) -> bool {
        self@.len() == self.capacity() ==> fits::<T>(next_capacity(self.capacity() as nat))
    }

    /// An empty array. It has no slots and owns no storage yet.
    pub fn new() -> (array: Self)
        requires
            size_of::<T>() != 0,
        ensures
            array.wf(),
            array@ == Seq::<T>::empty(),
            array.capacity() == 0,
            array.shape() == Shape::empty(),
    {
        Vector { buf: Vec::new(), capacity: 0 }
    }

    /// An empty array, or `None` for an element type of size zero, which
    /// an array cannot hold.
    pub fn try_new() -> (made: Option<Self>)
        ensures
            made is Some <==> size_of::<T>() != 0,
            made matches Some(array) ==> (array.wf()
                && array@ == Seq::<T>::empty()
                && array.capacity() == 0),
    {
        if core::mem::size_of::<T>() == 0 {
            None
        } else {
            Some(Self::new())
        }
    }

    /// The number of elements.
    #[verifier::when_used_as_spec(spec_len)]
    pub fn len(&self) -> (len: usize)
        ensures
            len == self@.len(),
    {
        self.buf.len()
    }

    /// The number of slots, occupied or not.
    #[verifier::when_used_as_spec(spec_capacity)]
    pub fn capacity(&self) -> (capacity: usize)
        ensures
            capacity == self.spec_capacity(),
    {
        self.capacity
    }

    /// Appends `element`. A full array grows first, which may move its
    /// storage; the elements already there keep their values and indices.
    ///
    /// Growing must be possible: storage for the next capacity has to fit
    /// in `isize::MAX` bytes.
    pub fn push(&mut self, element: T)
        requires
            old(self).wf(),
            old(self).can_push(),
        ensures
            final(self).wf(),
            final(self)@ == old(self)@.push(element),
            final(self).capacity() == capacity_after_push(
                old(self)@.len(),
                old(self).capacity() as nat,
            ),
            final(self).shape() == old(self).shape().after(Step::Push),
    {
        if self.buf.len() == self.capacity {
            self.grow();
        }
        self.buf.push(element);
    }

    /// Appends `element` as [`Vector::push`] does, if a push can go ahead.
    /// If it cannot, because the array is full and storage for the next
    /// capacity would exceed `isize::MAX` bytes, the element comes back and
    /// the array is left as it was.
    pub fn try_push(&mut self, element: T) -> (result: Result<(), T>)
        requires
            old(self).wf(),
        ensures
            final(self).wf(),
            old(self).can_push() ==> (result is Ok
                && final(self)@ == old(self)@.push(element)
                && final(self).shape() == old(self).shape().after(Step::Push)),
            !old(self).can_push() ==> (result == Err::<(), T>(element)
                && final(self)@ == old(self)@
                && final(self).capacity() == old(self).capacity()),
    {
        if self.buf.len() == self.capacity {
            proof {
                lemma_fitting_capacity_is_small::<T>(self.capacity as nat);
            }
            if !storage_fits::<T>(grown_capacity(self.capacity)) {
                return Err(element);
            }
        }
        self.push(element);
        Ok(())
    }

    /// Takes the last element out and returns it, or returns `None` if the
    /// array is empty. The capacity stays as it is.
    pub fn pop(&mut self) -> (last: Option<T>)
        ensures
            old(self).wf() ==> final(self).wf(),
            last == popped(old(self)@),
            final(self)@ == after_pop(old(self)@),
            final(self).capacity() == old(self).capacity(),
            final(self).shape() == old(self).shape().after(Step::Pop),
    {
        self.buf.pop()
    }

    /// Grows the storage to the next capacity: one slot if there was none,
    /// twice the slots otherwise. The elements are carried over as they are.
    fn grow(&mut self)
        requires
            old(self).wf(),
            fits::<T>(next_capacity(old(self).capacity() as nat)),
        ensures
            final(self).wf(),
            final(self)@ == old(self)@,
            final(self).capacity() == next_capacity(old(self).capacity() as nat),
    {
        proof {
            lemma_fitting_capacity_is_small::<T>(self.capacity as nat);
        }
        let new_capacity: usize = grown_capacity(self.capacity);
        let additional: usize = new_capacity - self.buf.len();
        reserve_exact(&mut self.buf, additional);
        self.capacity = new_capacity;
    }
}

impl<T> core::ops::Deref for Vector<T> {
    type Target = [T];

    /// The elements as a slice, in index order.
    fn deref(&self) -> (slice: &[T])
        ensures
            slice@ == self@,
    {
        self.buf.as_slice()
    }
}

impl<T> core::ops::DerefMut for Vector<T> {
    /// The elements as a slice through which they can be changed in place.
    /// What the slice holds when the borrow ends is what the array holds;
    /// the capacity is not touched.
    fn deref_mut(&mut self) -> (slice: &mut [T])
        ensures
            slice@ == old(self)@,
            final(self)@ == final(slice)@,
            final(self).capacity() == old(self).capacity(),
    {
        self.buf.as_mut_slice()
    }
}

} // verus!
