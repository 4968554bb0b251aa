//! The closed set of failure conditions the staking program can report, each
//! mapped to a stable numeric code understood by the host runtime.

use vstd::prelude::*;

verus! {

/// Staking-specific failure conditions. The host runtime sees each as a
/// custom error carrying the stable code from [`StakingError::code`].
#[derive(Clone, Copy, Debug, PartialEq, Eq, Structural)]
pub enum StakingError {
    /// The instruction bytes did not decode to a supported instruction.
    InvalidInstruction,
    /// The account expected to authorize the operation did not sign.
    InvalidSigner,
    /// The pool storage account is not owned by this program.
    InvalidOwner,
    /// The storage account was already initialized.
    AlreadyInitialized,
    /// The supplied user storage account is not the derived per-user address.
    InvalidUserStoragePda,
    /// The account expected to be the system allocator service is not it.
    SystemProgramMismatch,
    /// The pool storage account has not been initialized yet.
    NotInitialized,
}

impl StakingError {
    /// The stable numeric code for this error variant.
    pub open spec fn spec_code(self) -> u32 {
        match self {
            StakingError::InvalidInstruction => 0,
            StakingError::InvalidSigner => 1,
            StakingError::InvalidOwner => 2,
            StakingError::AlreadyInitialized => 3,
            StakingError::InvalidUserStoragePda => 4,
            StakingError::SystemProgramMismatch => 5,
            StakingError::NotInitialized => 6,
        }
    }

    /// Returns the stable numeric code for this error variant.
    pub fn code(self) -> (r: u32)
        ensures
            r == self.spec_code(),
    {
        match self {
            StakingError::InvalidInstruction => 0,
            StakingError::InvalidSigner => 1,
            StakingError::InvalidOwner => 2,
            StakingError::AlreadyInitialized => 3,
            StakingError::InvalidUserStoragePda => 4,
            StakingError::SystemProgramMismatch => 5,
            StakingError::NotInitialized => 6,
        }
    }
}

/// Everything a single instruction invocation can fail with: a staking error,
/// or one of the host-level failures the processor itself detects.
#[derive(Clone, Copy, Debug, PartialEq, Eq, Structural)]
pub enum ProcessError {
    /// A staking-specific failure, carrying its variant.
    Staking(StakingError),
    /// Fewer accounts were supplied than the instruction needs.
    NotEnoughAccountKeys,
    /// A storage account's bytes did not decode to its schema.
    InvalidAccountData,
    /// The freshly allocated user storage account was already initialized.
    AccountAlreadyInitialized,
}

} // verus!
