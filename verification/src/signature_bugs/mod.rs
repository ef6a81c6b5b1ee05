//! Checking signatures: transaction signers and Ed25519 verification instructions.
pub mod anchor;
pub mod pinocchio;
