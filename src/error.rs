use vstd::prelude::*;

verus! {

/// Broad classes of failure.
#[derive(Clone, Copy, Debug, PartialEq, Eq, Structural)]
pub enum ErrorKind {
    Authorization,
    State,
    Validation,
    InsufficientFunds,
    Arithmetic,
    Decode,
}

/// Every way a transition can fail. A failed transition changes no record.
#[derive(Clone, Copy, Debug, PartialEq, Eq, Structural)]
pub enum StakingError {
    /// The account that must sign did not.
    MissingSignature,
    /// The pool account's storage tag names another program.
    NotOwnedByProgram,
    /// The pool or the position record has not been initialized.
    Uninitialized,
    /// An epoch window that does not start after the previous one, or is empty.
    InvalidArgument,
    /// A withdrawal larger than the position's balance.
    InsufficientFunds,
    /// A balance, a counter or a reward does not fit its integer type.
    Overflow,
    /// The opcode is missing or unknown.
    InvalidOperation,
    /// The instruction payload is shorter than its opcode needs.
    TruncatedPayload,
    /// A record buffer does not have its record's exact length.
    InvalidAccountData,
    /// Fewer accounts than the operation needs.
    NotEnoughAccounts,
}

pub open spec fn kind_of(e: StakingError) -> ErrorKind {
    match e {
        StakingError::MissingSignature => ErrorKind::Authorization,
        StakingError::NotOwnedByProgram => ErrorKind::State,
        StakingError::Uninitialized => ErrorKind::State,
        StakingError::InvalidArgument => ErrorKind::Validation,
        StakingError::InsufficientFunds => ErrorKind::InsufficientFunds,
        StakingError::Overflow => ErrorKind::Arithmetic,
        StakingError::InvalidOperation => ErrorKind::Decode,
        StakingError::TruncatedPayload => ErrorKind::Decode,
        StakingError::InvalidAccountData => ErrorKind::Decode,
        StakingError::NotEnoughAccounts => ErrorKind::Decode,
    }
}

impl StakingError {
    /// The class this error belongs to.
    pub fn kind(&self) -> (r: ErrorKind)
        ensures
            r == kind_of(*self),
    {
        match self {
            StakingError::MissingSignature => ErrorKind::Authorization,
            StakingError::NotOwnedByProgram => ErrorKind::State,
            StakingError::Uninitialized => ErrorKind::State,
            StakingError::InvalidArgument => ErrorKind::Validation,
            StakingError::InsufficientFunds => ErrorKind::InsufficientFunds,
            StakingError::Overflow => ErrorKind::Arithmetic,
            StakingError::InvalidOperation => ErrorKind::Decode,
            StakingError::TruncatedPayload => ErrorKind::Decode,
            StakingError::InvalidAccountData => ErrorKind::Decode,
            StakingError::NotEnoughAccounts => ErrorKind::Decode,
        }
    }
}

} // verus!
