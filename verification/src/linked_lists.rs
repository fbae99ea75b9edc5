//! The linked lists of this crate, under one roof.

pub use crate::singly_linked_list::{LinkedList, LinkedListError, Node};
