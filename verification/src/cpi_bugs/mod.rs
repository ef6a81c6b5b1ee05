//! Programs that call other programs without checking which program, which
//! account or which instruction, next to versions that check.
pub mod anchor;
pub mod pinocchio;
