//! Programs written against the raw runtime interface.
pub mod upgrade_authority_fixed;
pub mod upgrade_authority_vulnerable;
