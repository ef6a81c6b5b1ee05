//! Upgrades that change how existing account bytes are read or who may change
//! the program, next to versions that keep both safe.
pub mod anchor;
pub mod pinocchio;
