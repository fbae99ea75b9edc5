//! Verified container types: a fixed-capacity array, a growable array and a
//! singly linked list that owns its chain of nodes.

pub mod arrays;
pub mod dynamic_arrays;
pub mod linked_lists;
pub mod singly_linked_list;
mod std_support;
