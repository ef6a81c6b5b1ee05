//! A constant-product market maker, as a broken and a corrected program.
pub mod amm_fixed;
pub mod amm_vulnerable;
