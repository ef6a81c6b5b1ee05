//! Anchor programs.
pub mod reinitialization_fixed;
pub mod reinitialization_vulnerable;
pub mod account_resurrection_fixed;
pub mod account_resurrection_vulnerable;
