//! Programs written against the raw runtime interface.
pub mod range_check_fixed;
pub mod range_check_vulnerable;
