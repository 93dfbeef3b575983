//! The closed taxonomy of guard failures.
//!
//! Every operation either succeeds or returns one of these kinds with no
//! record changed.  Nothing here is fatal: a failure is a rejected
//! operation, never a corrupted record.

use vstd::prelude::*;

verus! {

#[derive(Clone, Copy, Debug, PartialEq, Eq, Structural)]
pub enum GroupError {
    MismatchedToken,
    AlreadyInitialized,
    NotInitialized,
    AlreadyAdmin,
    InsufficientAdminSlot,
    OperationUnauthorized,
    NotPermitted,
    NotEnoughTimeElapse,
    OnlyAllowedExtend,
    InvalidLimit,
    AlreadyManager,
    AlreadyMember,
    ManagerNotZero,
    CouldNotUpdateGroup,
    UpdateFirst,
    AlreadyUpdatedProposal,
    MismatchedGroup,
    MismatchedFunder,
    MismatchedBeneMember,
    AlreadyInProposal,
    AlreadyOutdated,
    AlreadyUpdated,
    RevokeOutdated,
    FrozenGroup,
    AlreadyFrozen,
    GroupIsNotFrozen,
    LastElectionNotFinished,
    WrongVaultTokenAccount,
    WrongReceiverTokenAccount,
    InsufficientTokenBalance,
    NotAllowedToCloseProgressingProposal,
    LastWithdrawNotFinished,
    MismatchedSigner,
    NotAllowedToClose,
    MismatchedProposal,
    AccountDoesNotExist,
    ProposalOutdated,
    ProposalNotOutdated,
    MemberNotInProposal,
}

impl GroupError {
    /// The human-readable message of this kind.
    pub fn message(&self) -> &'static str {
        match self {
            GroupError::MismatchedToken => "Token mismatched",
            GroupError::AlreadyInitialized => "Admin account is already initialized",
            GroupError::NotInitialized => "Admin account is not initialized",
            GroupError::AlreadyAdmin => "User is already a administrator",
            GroupError::InsufficientAdminSlot => "Insufficient administrator slot",
            GroupError::OperationUnauthorized => "Operation unauthorized",
            GroupError::NotPermitted => "No permission to submit such proposal",
            GroupError::NotEnoughTimeElapse => "Deadline must be greater than 12 hours",
            GroupError::OnlyAllowedExtend => "Deadline can only be extended",
            GroupError::InvalidLimit => "Invalid limit",
            GroupError::AlreadyManager => "Already is manager",
            GroupError::AlreadyMember => "Already is member",
            GroupError::ManagerNotZero => "Manager is not zero",
            GroupError::CouldNotUpdateGroup => "Could not update the group",
            GroupError::UpdateFirst => "Manager count is full, update group first",
            GroupError::AlreadyUpdatedProposal => "Already updated proposal",
            GroupError::MismatchedGroup => "Group is mismatched",
            GroupError::MismatchedFunder => "Funder is mismatched",
            GroupError::MismatchedBeneMember => "Beneficiary is mismatched",
            GroupError::AlreadyInProposal => "Member is already in a proposal progressing",
            GroupError::AlreadyOutdated => "Proposal already outdated",
            GroupError::AlreadyUpdated => "Proposal already updated",
            GroupError::RevokeOutdated => "Proposal revoke outdated, only allow revoke within 2 hours after submit",
            GroupError::FrozenGroup => "Group is frozen, not allowed this operation",
            GroupError::AlreadyFrozen => "Group is already frozen",
            GroupError::GroupIsNotFrozen => "Group is not frozen",
            GroupError::LastElectionNotFinished => "Group is in election",
            GroupError::WrongVaultTokenAccount => "Wrong vault token account",
            GroupError::WrongReceiverTokenAccount => "Wrong receiver token account",
            GroupError::InsufficientTokenBalance => "Token balance is insufficient",
            GroupError::NotAllowedToCloseProgressingProposal => "Proposal can only be closed after passed or rejected or outdated",
            GroupError::LastWithdrawNotFinished => "Member is in withdraw",
            GroupError::MismatchedSigner => "Signer is mismatched",
            GroupError::NotAllowedToClose => "Proposal is in progressing, not allowed to close",
            GroupError::MismatchedProposal => "Proposal is mismatched",
            GroupError::AccountDoesNotExist => "Account does not exist",
            GroupError::ProposalOutdated => "Proposal is outdated",
            GroupError::ProposalNotOutdated => "Proposal is not outedated",
            GroupError::MemberNotInProposal => "Member is not in any proposal",
        }
    }
}

} // verus!
