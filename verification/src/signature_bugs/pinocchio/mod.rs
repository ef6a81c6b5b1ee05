//! Programs written against the raw runtime interface.
pub mod signature_verification_fixed;
pub mod signature_verification_vulnerable;
