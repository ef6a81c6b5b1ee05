//! Programs written against the raw runtime interface.
pub mod reinitialization_fixed;
pub mod reinitialization_vulnerable;
