//! Programs written against the raw runtime interface.
pub mod truncation_fixed;
pub mod truncation_vulnerable;
