//! Programs whose arithmetic overflows, wraps or loses precision, next to
//! versions that check or reorder it.
pub mod anchor;
pub mod pinocchio;
