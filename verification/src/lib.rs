//! Executable models of Solana programs that show common account-validation,
//! arithmetic and serialization mistakes next to their corrected versions,
//! with the behaviour of every instruction stated and proved.
pub mod bytes;
pub mod runtime;
pub mod outside;
pub mod framework;
pub mod access_control;
pub mod math;
pub mod challenges;
pub mod text;
pub mod signature_bugs;
pub mod account_life_cycle;
pub mod logic_and_arithmetic;
pub mod cpi_bugs;
pub mod data_validation;
pub mod program_upgrade;
pub mod type_casting;
pub mod account_confusion;
