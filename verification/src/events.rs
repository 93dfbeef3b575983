//! Notifications handed to the environment's event sink.
//!
//! Each completed operation returns one of these records; they are purely
//! observational and feed no decision in this library.

use vstd::prelude::*;
use crate::group::ParticipateRate;
use crate::identity::Identity;
use crate::proposal::ProposalType;
use crate::signature::SignType;

verus! {

#[derive(Debug, PartialEq, Eq)]
pub struct JoinGroupEvent {
    pub user: Identity,
    pub group: Identity,
    pub member: Identity,
    pub funder: Identity,
    pub time: i64,
    pub label: String,
}

#[derive(Debug, PartialEq, Eq)]
pub struct ExitGroupEvent {
    pub user: Identity,
    pub group: Identity,
    pub member: Identity,
    pub funder: Identity,
    pub time: i64,
    pub label: String,
}

#[derive(Debug, PartialEq, Eq)]
pub struct FreezeGroupEvent {
    pub authority: Identity,
    pub admin: Identity,
    pub group: Identity,
    pub label: String,
}

#[derive(Debug, PartialEq, Eq)]
pub struct ThawGroupEvent {
    pub authority: Identity,
    pub admin: Identity,
    pub group: Identity,
    pub label: String,
}

#[derive(Debug, PartialEq, Eq)]
pub struct UpgradeGroupEvent {
    pub authority: Identity,
    pub admin: Identity,
    pub group: Identity,
    pub rate: ParticipateRate,
    pub label: String,
}

/// A proposal's kind with the per-kind payload stripped, as events carry it.
#[derive(Clone, Copy, Debug, PartialEq, Eq, Structural)]
pub enum ProposalEventType {
    Upgrade,
    Downgrade,
    Withdraw,
    UpdateGroup,
    ReElection,
}

/// The event kind that announces a proposal of kind `t`.
pub open spec fn event_type_of(t: ProposalType) -> ProposalEventType {
    match t {
        ProposalType::Upgrade => ProposalEventType::Upgrade,
        ProposalType::Downgrade => ProposalEventType::Downgrade,
        ProposalType::Withdraw { .. } => ProposalEventType::Withdraw,
        ProposalType::UpdateGroup { .. } => ProposalEventType::UpdateGroup,
        ProposalType::ReElection => ProposalEventType::ReElection,
    }
}

impl From<ProposalType> for ProposalEventType {
    fn from(proposal_type: ProposalType) -> (r: Self) {
        match proposal_type {
            ProposalType::Upgrade => ProposalEventType::Upgrade,
            ProposalType::Downgrade => ProposalEventType::Downgrade,
            ProposalType::Withdraw { .. } => ProposalEventType::Withdraw,
            ProposalType::UpdateGroup { .. } => ProposalEventType::UpdateGroup,
            ProposalType::ReElection => ProposalEventType::ReElection,
        }
    }
}

impl vstd::std_specs::convert::FromSpecImpl<ProposalType> for ProposalEventType {
    open spec fn obeys_from_spec() -> bool {
        true
    }

    open spec fn from_spec(t: ProposalType) -> Self {
        event_type_of(t)
    }
}

#[derive(Debug, PartialEq, Eq)]
pub struct SubmitProposalEvent {
    pub ptype: ProposalEventType,
    pub submitter: Identity,
    pub submitter_member: Identity,
    pub beneficiary: Identity,
    pub bene_member: Identity,
    pub group: Identity,
    pub proposal: Identity,
    pub deadline: i64,
    pub label: String,
}

#[derive(Debug, PartialEq, Eq)]
pub struct SignProposalEvent {
    pub ptype: ProposalEventType,
    pub submitter: Identity,
    pub beneficiary: Identity,
    pub group: Identity,
    pub proposal: Identity,
    pub stype: SignType,
    pub signer: Identity,
    pub signature: Identity,
    pub label: String,
}

/// Which way a decided proposal went.
#[derive(Clone, Copy, Debug, PartialEq, Eq, Structural)]
pub enum ProposalResult {
    Passed,
    Rejected,
}

#[derive(Debug, PartialEq, Eq)]
pub struct ExecuteProposalEvent {
    pub ptype: ProposalEventType,
    pub submitter: Identity,
    pub beneficiary: Identity,
    pub group: Identity,
    pub proposal: Identity,
    pub result: ProposalResult,
    pub label: String,
}

#[derive(Debug, PartialEq, Eq)]
pub struct DepositTokenEvent {
    pub user: Identity,
    pub group: Identity,
    pub vault: Identity,
    pub mint: Identity,
    pub amount: u64,
    pub label: String,
}

#[derive(Debug, PartialEq, Eq)]
pub struct UpdateProposalEvent {
    pub group: Identity,
    pub proposal: Identity,
    pub submitter: Identity,
    pub deadline: i64,
    pub label: String,
}

} // verus!
