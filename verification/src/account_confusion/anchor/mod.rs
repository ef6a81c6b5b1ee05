//! Programs written with the Anchor framework.
pub mod pool_fixed;
pub mod pool_vulnerable;
