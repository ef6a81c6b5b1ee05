//! Programs written with the Anchor framework.
pub mod unchecked_program_id_fixed;
pub mod unchecked_program_id_vulnerable;
pub mod unchecked_pda_fixed;
pub mod unchecked_pda_vulnerable;
pub mod arbitrary_cpi_fixed;
pub mod arbitrary_cpi_vulnerable;
