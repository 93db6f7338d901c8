//! Two verified stack-like containers: a growable contiguous array and a
//! singly linked list.
//!
//! Both are described by the sequence of the elements they hold, oldest
//! first. [`stack`] gives the meaning of pushing and popping on such a
//! sequence, and [`growth`] the rule by which the array's capacity evolves.

pub mod growth;
pub mod linked_list;
pub mod stack;
pub mod vector;
