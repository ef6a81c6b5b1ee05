//! Programs written with the Anchor framework.
pub mod truncation_fixed;
pub mod truncation_vulnerable;
