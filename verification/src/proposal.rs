//! Proposal records: one governance motion each.

use vstd::prelude::*;
use crate::identity::Identity;

verus! {

/// The five kinds of motion a member can put to a vote.
#[derive(Clone, Copy, Debug, PartialEq, Eq)]
pub enum ProposalType {
    /// Raise the beneficiary to the manager rank.
    Upgrade,
    /// Lower the beneficiary to the member rank.
    Downgrade,
    /// Raise the group's manager capacity to `max_manager`.
    UpdateGroup { max_manager: u32 },
    /// Elect the beneficiary manager of a group left without managers.
    ReElection,
    /// Move `amount` of the `mint` asset from the group's treasury to the
    /// `receiver` token account.
    Withdraw { mint: Identity, receiver: Identity, amount: u64 },
}

impl Default for ProposalType {
    fn default() -> (r: Self)
        ensures
            r == ProposalType::Upgrade,
    {
        Self::Upgrade
    }
}

/// Where a proposal stands.  `Passed` and `Rejected` are terminal; `Updated`
/// marks the one permitted deadline extension.
#[derive(Clone, Copy, Debug, PartialEq, Eq)]
pub enum ProposalStatus {
    Progressing,
    Passed { time: i64 },
    Rejected { time: i64 },
    Updated { time: i64 },
}

impl Default for ProposalStatus {
    fn default() -> (r: Self)
        ensures
            r == ProposalStatus::Progressing,
    {
        Self::Progressing
    }
}

/// True of `Passed` and `Rejected`: no further transition is possible.
pub open spec fn is_terminal(s: ProposalStatus) -> bool {
    s is Passed || s is Rejected
}

/// One governance motion: type, target, vote tally, timing, status.
///
/// `deadline` closes the voting window; `revoke_timeout` closes the
/// submitter's fixed revocation window, independent of `deadline`;
/// `close_timeout` is retained in the layout for future use.
#[derive(Clone, Copy, Debug, PartialEq, Eq)]
pub struct ProposalAccount {
    pub submitter: Identity,
    pub beneficiary: Identity,
    pub bene_member: Identity,
    pub group: Identity,
    pub positive: u32,
    pub negative: u32,
    pub limit: u64,
    pub deadline: i64,
    pub revoke_timeout: i64,
    pub close_timeout: i64,
    pub proposal_type: ProposalType,
    pub status: ProposalStatus,
}

impl Default for ProposalAccount {
    /// The blank record: all identities zero, counters and timestamps
    /// zero, kind `Upgrade`, status `Progressing`.
    fn default() -> (r: Self)
        ensures
            r.submitter == crate::identity::zero_identity(),
            r.beneficiary == crate::identity::zero_identity(),
            r.bene_member == crate::identity::zero_identity(),
            r.group == crate::identity::zero_identity(),
            r.positive == 0,
            r.negative == 0,
            r.limit == 0,
            r.deadline == 0,
            r.revoke_timeout == 0,
            r.close_timeout == 0,
            r.proposal_type == ProposalType::Upgrade,
            r.status == ProposalStatus::Progressing,
    {
        ProposalAccount {
            submitter: crate::identity::zero_id(),
            beneficiary: crate::identity::zero_id(),
            bene_member: crate::identity::zero_id(),
            group: crate::identity::zero_id(),
            positive: 0,
            negative: 0,
            limit: 0,
            deadline: 0,
            revoke_timeout: 0,
            close_timeout: 0,
            proposal_type: ProposalType::Upgrade,
            status: ProposalStatus::Progressing,
        }
    }
}

impl ProposalAccount {
    /// The record store's cell size for a proposal.
    pub const LEN: usize = 32 + 32 + 32 + 32 + 4 + 4 + 8 + 8 + 8 + 8 + 80 + 16;

    /// How many votes have been cast on this proposal.
    pub fn participated(&self) -> (r: u64)
        requires
            self.positive + self.negative <= u32::MAX,
        ensures
            r == self.positive + self.negative,
    {
        (self.positive + self.negative) as u64
    }
}

} // verus!
