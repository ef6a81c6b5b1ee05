//! Who may act on an account: signatures, owners and derived addresses.
pub mod anchor;
pub mod pinocchio;
