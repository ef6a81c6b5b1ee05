//! Anchor programs.
pub mod missing_signer_fixed;
pub mod missing_signer_vulnerable;
pub mod missing_owner_fixed;
pub mod missing_owner_vulnerable;
pub mod pda_substitution_fixed;
pub mod pda_substitution_vulnerable;
