//! Programs that trust account types, input ranges or account distinctness
//! without checking them, next to versions that check.
pub mod anchor;
pub mod pinocchio;
