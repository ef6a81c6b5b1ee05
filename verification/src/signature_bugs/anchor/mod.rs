//! Anchor programs.
pub mod introspection_fixed;
pub mod introspection_vulnerable;
pub mod signature_fixed;
pub mod signature_vulnerable;
