//! Programs that narrow a 128-bit result to 64 bits with a truncating cast,
//! next to versions that refuse results that do not fit.
pub mod anchor;
pub mod pinocchio;
