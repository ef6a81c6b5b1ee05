//! Programs written with the Anchor framework.
pub mod integer_overflow_fixed;
pub mod integer_overflow_vulnerable;
pub mod precision_loss_fixed;
pub mod precision_loss_vulnerable;
