//! Error taxonomy of the ledger: arithmetic, ordering, not-found, capacity,
//! quorum and payload-parsing failures, plus the unified error that
//! operations touching several domains return.

use vstd::prelude::*;

verus! {

/// Errors of the checkpoint ledger, delegation, withdrawal and vote casting.
#[derive(Clone, Copy, PartialEq, Eq, Structural, Debug)]
pub enum ErrorCode {
    TooManyCheckpoints,
    GenericOverflow,
    GenericUnderflow,
    CheckpointSerDe,
    CheckpointOutOfBounds,
    CheckpointNotFound,
    InvalidTimestamp,
    NoWeight,
    AllWeightCast,
    VoteWouldExceedWeight,
    WithdrawToUnauthorizedAccount,
    ProposalAlreadyExists,
    InvalidCurrentDelegate,
    WindowLengthNotFound,
    MissingNextCheckpointDataAccount,
    ExceedsMaxAllowableVoteWeightWindowLength,
    ProposalInactive,
    InvalidCheckpointAccountLimit,
    ZeroWithdrawal,
    InvalidAuthority,
    InvalidPendingAuthority,
    Other,
}

/// Errors of the vesting bookkeeping.
#[derive(Clone, Copy, PartialEq, Eq, Structural, Debug)]
pub enum VestingError {
    NotFullyVested,
    NotInSurplus,
    VestingFinalized,
    VestingUnfinalized,
    Overflow,
    Underflow,
    InvalidStakeAccountOwner,
    InvalidVestingBalancePDA,
    TransferVestToMyself,
    VestedBalanceMismatch,
}

/// Errors of the guardian quorum verifier.
#[derive(Clone, Copy, PartialEq, Eq, Structural, Debug)]
pub enum QueriesSolanaVerifyError {
    WriteAuthorityMismatch,
    GuardianSetExpired,
    InvalidMessageHash,
    NoQuorum,
    InvalidGuardianIndexNonIncreasing,
    InvalidGuardianIndexOutOfRange,
    InvalidSignature,
    InvalidGuardianKeyRecovery,
}

/// Errors of the cross-chain proposal payload checks.
#[derive(Clone, Copy, PartialEq, Eq, Structural, Debug)]
pub enum ProposalWormholeMessageError {
    TooManyQueryResponses,
    SenderChainMismatch,
    TooManyEthCallResults,
    InvalidDataLength,
    ErrorOfSignatureParsing,
    ErrorOfProposalIdParsing,
    ErrorOfVoteStartParsing,
    InvalidHubProposalMetadataContract,
    InvalidProposalId,
    NonFinalizedBlock,
    InvalidChainSpecificQuery,
    InvalidChainSpecificResponse,
    InvalidFunctionSignature,
    ProposalNotInitialized,
}

/// The unified error of operations that span several domains, as the
/// original transaction-level result does.
#[derive(Clone, Copy, PartialEq, Eq, Structural, Debug)]
pub enum StakingError {
    Code(ErrorCode),
    Vesting(VestingError),
    Verify(QueriesSolanaVerifyError),
    Message(ProposalWormholeMessageError),
}

} // verus!
