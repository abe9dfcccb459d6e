//! A singly linked stack of `i32` values whose nodes are each owned by
//! their predecessor, with take-and-replace moves and an iterative teardown.

pub mod laws;
pub mod list;

pub use list::List;
