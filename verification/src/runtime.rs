//! The runtime's view of accounts and its program errors.
use vstd::prelude::*;

verus! {

/// The address of an account.
pub type Pubkey = [u8; 32];

/// The all-zero key, what a freshly created account holds in a key field.
pub const DEFAULT_PUBKEY: Pubkey = [
    0, 0, 0, 0, 0, 0, 0, 0, 0, 0, 0, 0, 0, 0, 0, 0, 0, 0, 0, 0, 0, 0, 0, 0, 0, 0, 0, 0, 0, 0, 0, 0,
];

/// The errors the runtime defines for programs to return.
#[derive(Clone, Copy, Debug, PartialEq, Eq, Structural)]
pub enum ProgramError {
    Custom(u32),
    InvalidArgument,
    InvalidInstructionData,
    InvalidAccountData,
    InsufficientFunds,
    IncorrectProgramId,
    MissingRequiredSignature,
    AccountAlreadyInitialized,
    UninitializedAccount,
    NotEnoughAccountKeys,
    InvalidSeeds,
    UnsupportedSysvar,
    ArithmeticOverflow,
    AccountBorrowFailed,
}

/// An account handed to an instruction: its address, owning program,
/// balance in lamports, data, and how the transaction refers to it.
#[derive(Clone, Debug, PartialEq, Eq)]
pub struct AccountInfo {
    pub key: Pubkey,
    pub owner: Pubkey,
    pub lamports: u64,
    pub data: Vec<u8>,
    pub is_signer: bool,
    pub is_writable: bool,
    pub executable: bool,
}

/// `b` is `a` with its balance set to `lamports` and its data to `data`.
pub open spec fn account_is(b: AccountInfo, a: AccountInfo, lamports: u64, data: Seq<u8>) -> bool {
    &&& b.key == a.key
    &&& b.owner == a.owner
    &&& b.is_signer == a.is_signer
    &&& b.is_writable == a.is_writable
    &&& b.executable == a.executable
    &&& b.lamports == lamports
    &&& b.data@ == data
}

} // verus!
