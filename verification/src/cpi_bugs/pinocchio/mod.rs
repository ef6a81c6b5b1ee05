//! Programs written against the raw runtime interface.
pub mod unchecked_program_id_fixed;
pub mod unchecked_program_id_vulnerable;
