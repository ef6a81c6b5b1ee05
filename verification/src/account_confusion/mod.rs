//! Programs that read an account as the type they expect without checking
//! that it is of that type, next to versions that check.
pub mod anchor;
pub mod pinocchio;
