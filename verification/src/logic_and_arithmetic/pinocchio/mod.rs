//! Programs written against the raw runtime interface.
pub mod integer_overflow_vulnerable;
