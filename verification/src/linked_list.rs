//! A singly linked stack.
//!
//! [`LinkedList`] keeps each element in a node of its own and links the
//! nodes from the newest to the oldest. Pushing and popping work at the
//! head and never touch another node.

use crate::stack::{after_pop, popped};
use vstd::prelude::*;

verus! {

/// A link to the rest of a list: the next node, if there is one.
type Link<T> = Option<Box<Node<T>>>;

struct Node<T> {
    element: T,
    next: Link<T>,
}

/// A stack of `T`, viewed as the sequence of its elements, oldest first:
/// the head of the list is the last element of the view.
pub struct LinkedList<T> {
    head: Link<T>,
}

impl<T> Node<T> {
    /// The elements reachable from `link`, oldest first.
    spec fn elements(link: Link<T>) -> Seq<T>
        decreases link,
    {
        match link {
            None => Seq::empty(),
            Some(node) => Self::elements(node.next).push(node.element),
        }
    }
}

impl<T> View for LinkedList<T> {
    type V = Seq<T>;

    closed spec fn view(&self) -> Seq<T> {
        Node::elements(self.head)
    }
}

impl<T> LinkedList<T> {
    /// An empty list.
    pub fn new() -> (list: Self)
        ensures
            list@ == Seq::<T>::empty(),
    {
        LinkedList { head: None }
    }

    /// Puts `element` in a new node at the head of the list.
    pub fn push(&mut self, element: T)
        ensures
            final(self)@ == old(self)@.push(element),
    {
        let new_node = Box::new(Node { element, next: self.head.take() });
        self.head = Some(new_node);
    }

    /// Unlinks the head and returns its element, or returns `None` if the
    /// list is empty.
    pub fn pop(&mut self) -> (last: Option<T>)
        ensures
            last == popped(old(self)@),
            final(self)@ == after_pop(old(self)@),
    {
        match self.head.take() {
            None => None,
            Some(node) => {
                let Node { element, next } = *node;
                self.head = next;
                Some(element)
            },
        }
    }
}

impl<T> Drop for LinkedList<T> {
    /// Unlinks the nodes one after the other, so that letting go of a long
    /// list does not nest one node's release inside the previous one's.
    fn drop(&mut self)
        ensures
            final(self)@ == Seq::<T>::empty(),
        opens_invariants none
        no_unwind
    {
        let mut current: Link<T> = None;
        core::mem::swap(&mut current, &mut self.head);
        loop
            invariant
                self.head is None,
            decreases Node::elements(current).len(),
        {
            match current {
                None => {
                    break;
                },
                Some(mut node) => {
                    let mut next: Link<T> = None;
                    core::mem::swap(&mut next, &mut node.next);
                    current = next;
                },
            }
        }
    }
}

} // verus!
