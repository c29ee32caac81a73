//! A singly linked list whose head node doubles as the list handle.
//!
//! A list always holds at least one value: the head's own. Every operation
//! is specified over the list's view, the sequence of values from the head
//! to the tail.

pub mod cmp;
pub mod iter;
pub mod laws;
pub mod node;

pub use node::LinkedNode;
