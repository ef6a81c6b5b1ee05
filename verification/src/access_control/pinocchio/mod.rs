//! Programs written against the raw runtime interface.
pub mod missing_signer_fixed;
pub mod missing_signer_vulnerable;
