//! Creating, re-creating and closing accounts.
pub mod anchor;
pub mod pinocchio;
