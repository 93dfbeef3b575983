//! Proposal lifecycle short of voting: submission, the one-time deadline
//! extension, revocation within its fixed window, and reclamation checks.
//!
//! Guards run in the order the environment evaluates them and the first
//! failing guard names the error; no record changes when an error is
//! returned.

use vstd::prelude::*;
use crate::errors::GroupError;
use crate::events::{event_type_of, SubmitProposalEvent, UpdateProposalEvent};
use crate::group::GroupAccount;
use crate::identity::{id_eq, Identity};
use crate::member::MemberAccount;
use crate::proposal::{ProposalAccount, ProposalStatus, ProposalType};
use crate::signature::SignatureAccount;
use crate::tokens::TokenAccountInfo;
use crate::utils;
use crate::utils::TIME_ELAPSE;

verus! {

/// The submitter's fixed revocation window, in seconds: two hours.
pub const REVOKE_WINDOW: i64 = 7200;

/// How far past its deadline a proposal's retained `close_timeout` lies,
/// in seconds: three days.
pub const CLOSE_GRACE: i64 = 259200;

/// The guards every submission passes before its kind is examined: group
/// not frozen, caller and beneficiary each belonging to this group and
/// owning their membership record, deadline at least the floor away,
/// stake limit positive.
pub open spec fn submit_precheck_ok(
    g: GroupAccount,
    group_id: Identity,
    member: MemberAccount,
    bene: MemberAccount,
    authority: Identity,
    beneficiary: Identity,
    limit: u64,
    deadline: i64,
    now: i64,
) -> bool {
    &&& !g.freeze
    &&& member.group == group_id
    &&& member.owner == authority
    &&& bene.group == group_id
    &&& bene.owner == beneficiary
    &&& deadline >= now + TIME_ELAPSE
    &&& limit != 0
}

/// The per-kind submission guard, evaluated in priority order after
/// [`submit_precheck_ok`].
pub open spec fn submit_guard_ok(
    g: GroupAccount,
    member: MemberAccount,
    bene: MemberAccount,
    kind: ProposalType,
    vault: Option<TokenAccountInfo>,
) -> bool {
    match kind {
        ProposalType::Upgrade => {
            &&& g.current_manager != g.max_manager
            &&& member.position is Manager
            &&& !(bene.position is Manager)
            &&& !bene.in_promotion
        },
        ProposalType::Downgrade => {
            &&& member.position is Manager
            &&& !(bene.position is Member)
            &&& !bene.in_promotion
        },
        ProposalType::UpdateGroup { max_manager } => {
            &&& member.position is Manager
            &&& g.current_manager == g.max_manager
            &&& max_manager > g.current_manager
            &&& !g.update
        },
        ProposalType::ReElection => {
            &&& g.current_manager == 0
            &&& !g.electing
        },
        ProposalType::Withdraw { mint, amount, .. } => {
            &&& !bene.in_withdraw
            &&& match vault {
                Some(v) => v.mint == mint && v.amount >= amount,
                None => false,
            }
        },
    }
}

/// When [`submit_proposal`] fails: the first guard it trips.
pub open spec fn submit_error(
    g: GroupAccount,
    group_id: Identity,
    member: MemberAccount,
    bene: MemberAccount,
    authority: Identity,
    beneficiary: Identity,
    kind: ProposalType,
    limit: u64,
    deadline: i64,
    now: i64,
    vault: Option<TokenAccountInfo>,
) -> GroupError {
    if g.freeze {
        GroupError::FrozenGroup
    } else if member.group != group_id {
        GroupError::MismatchedGroup
    } else if member.owner != authority {
        GroupError::OperationUnauthorized
    } else if bene.group != group_id {
        GroupError::MismatchedGroup
    } else if bene.owner != beneficiary {
        GroupError::OperationUnauthorized
    } else if deadline < now + TIME_ELAPSE {
        GroupError::NotEnoughTimeElapse
    } else if limit == 0 {
        GroupError::InvalidLimit
    } else {
        match kind {
            ProposalType::Upgrade => {
                if g.current_manager == g.max_manager {
                    GroupError::UpdateFirst
                } else if member.position is Member {
                    GroupError::NotPermitted
                } else if bene.position is Manager {
                    GroupError::AlreadyManager
                } else {
                    GroupError::AlreadyInProposal
                }
            },
            ProposalType::Downgrade => {
                if member.position is Member {
                    GroupError::NotPermitted
                } else if bene.position is Member {
                    GroupError::AlreadyMember
                } else {
                    GroupError::AlreadyInProposal
                }
            },
            ProposalType::UpdateGroup { .. } => {
                if member.position is Member {
                    GroupError::NotPermitted
                } else {
                    GroupError::CouldNotUpdateGroup
                }
            },
            ProposalType::ReElection => {
                if g.current_manager != 0 {
                    GroupError::ManagerNotZero
                } else {
                    GroupError::LastElectionNotFinished
                }
            },
            ProposalType::Withdraw { mint, amount, .. } => {
                if bene.in_withdraw {
                    GroupError::LastWithdrawNotFinished
                } else {
                    match vault {
                        None => GroupError::AccountDoesNotExist,
                        Some(v) => {
                            if v.mint != mint {
                                GroupError::WrongVaultTokenAccount
                            } else {
                                GroupError::InsufficientTokenBalance
                            }
                        },
                    }
                }
            },
        }
    }
}

/// The record a successful submission creates.
pub open spec fn submitted_proposal(
    authority: Identity,
    beneficiary: Identity,
    bene_member_id: Identity,
    group_id: Identity,
    kind: ProposalType,
    limit: u64,
    deadline: i64,
    now: i64,
) -> ProposalAccount {
    ProposalAccount {
        submitter: authority,
        beneficiary,
        bene_member: bene_member_id,
        group: group_id,
        positive: 0,
        negative: 0,
        limit,
        deadline,
        revoke_timeout: if kind is ReElection {
            deadline
        } else {
            (now + REVOKE_WINDOW) as i64
        },
        close_timeout: (deadline + CLOSE_GRACE) as i64,
        proposal_type: kind,
        status: ProposalStatus::Progressing,
    }
}

/// Opens a proposal of kind `kind` against `bene_member`, setting that
/// member's (or the group's) in-flight flag and taking the group's next
/// proposal ordinal.  Both membership records must belong to the group
/// being mutated.  `vault` is the caller's observation of the group
/// treasury balance for the asset a `Withdraw` names; other kinds ignore
/// it.
pub fn submit_proposal(
    group: &mut GroupAccount,
    group_id: &Identity,
    member: &MemberAccount,
    member_id: &Identity,
    authority: &Identity,
    beneficiary: &Identity,
    bene_member: &mut MemberAccount,
    bene_member_id: &Identity,
    proposal_id: &Identity,
    kind: ProposalType,
    limit: u64,
    deadline: i64,
    now: i64,
    vault: Option<&TokenAccountInfo>,
) -> (r: Result<(ProposalAccount, SubmitProposalEvent), GroupError>)
    requires
        (!old(group).freeze && member.group == *group_id && member.owner == *authority && old(
            bene_member,
        ).group == *group_id && old(bene_member).owner == *beneficiary) ==> now + TIME_ELAPSE
            <= i64::MAX,
        submit_precheck_ok(
            *old(group),
            *group_id,
            *member,
            *old(bene_member),
            *authority,
            *beneficiary,
            limit,
            deadline,
            now,
        ) ==> deadline + CLOSE_GRACE <= i64::MAX && old(group).proposals < u32::MAX,
    ensures
        r is Ok <==> {
            &&& submit_precheck_ok(
                *old(group),
                *group_id,
                *member,
                *old(bene_member),
                *authority,
                *beneficiary,
                limit,
                deadline,
                now,
            )
            &&& submit_guard_ok(
                *old(group),
                *member,
                *old(bene_member),
                kind,
                match vault {
                    Some(v) => Some(*v),
                    None => None,
                },
            )
        },
        r is Err ==> {
            &&& *final(group) == *old(group)
            &&& *final(bene_member) == *old(bene_member)
            &&& r == Err::<(ProposalAccount, SubmitProposalEvent), GroupError>(
                submit_error(
                    *old(group),
                    *group_id,
                    *member,
                    *old(bene_member),
                    *authority,
                    *beneficiary,
                    kind,
                    limit,
                    deadline,
                    now,
                    match vault {
                        Some(v) => Some(*v),
                        None => None,
                    },
                ),
            )
        },
        r matches Ok((p, e)) ==> {
            &&& p == submitted_proposal(
                *authority,
                *beneficiary,
                *bene_member_id,
                *group_id,
                kind,
                limit,
                deadline,
                now,
            )
            &&& *final(group) == (GroupAccount {
                proposals: (old(group).proposals + 1) as u32,
                update: old(group).update || kind is UpdateGroup,
                electing: old(group).electing || kind is ReElection,
                ..*old(group)
            })
            &&& *final(bene_member) == (MemberAccount {
                in_promotion: old(bene_member).in_promotion || kind is Upgrade || kind is Downgrade
                    || kind is ReElection,
                in_withdraw: old(bene_member).in_withdraw || kind is Withdraw,
                ..*old(bene_member)
            })
            &&& e == (SubmitProposalEvent {
                ptype: event_type_of(kind),
                submitter: *authority,
                submitter_member: *member_id,
                beneficiary: *beneficiary,
                bene_member: *bene_member_id,
                group: *group_id,
                proposal: *proposal_id,
                deadline,
                label: e.label,
            })
            &&& e.label@ == "SubmitProposal"@
        },
{
    if group.freeze {
        return Err(GroupError::FrozenGroup);
    }
    if !id_eq(&member.group, group_id) {
        return Err(GroupError::MismatchedGroup);
    }
    if !id_eq(&member.owner, authority) {
        return Err(GroupError::OperationUnauthorized);
    }
    if !id_eq(&bene_member.group, group_id) {
        return Err(GroupError::MismatchedGroup);
    }
    if !id_eq(&bene_member.owner, beneficiary) {
        return Err(GroupError::OperationUnauthorized);
    }
    if let Err(e) = utils::is_valid_deadline(now, deadline) {
        return Err(e);
    }
    if let Err(e) = utils::is_valid_limit(limit) {
        return Err(e);
    }
    match kind {
        ProposalType::Upgrade => {
            if group.current_manager == group.max_manager {
                return Err(GroupError::UpdateFirst);
            }
            if member.position.is_member() {
                return Err(GroupError::NotPermitted);
            }
            if bene_member.position.is_manager() {
                return Err(GroupError::AlreadyManager);
            }
            if bene_member.in_promotion {
                return Err(GroupError::AlreadyInProposal);
            }
            bene_member.in_promotion = true;
        },
        ProposalType::Downgrade => {
            if member.position.is_member() {
                return Err(GroupError::NotPermitted);
            }
            if bene_member.position.is_member() {
                return Err(GroupError::AlreadyMember);
            }
            if bene_member.in_promotion {
                return Err(GroupError::AlreadyInProposal);
            }
            bene_member.in_promotion = true;
        },
        ProposalType::UpdateGroup { max_manager } => {
            if member.position.is_member() {
                return Err(GroupError::NotPermitted);
            }
            if group.current_manager != group.max_manager || max_manager <= group.current_manager
                || group.update {
                return Err(GroupError::CouldNotUpdateGroup);
            }
            group.update = true;
        },
        ProposalType::ReElection => {
            if group.current_manager != 0 {
                return Err(GroupError::ManagerNotZero);
            }
            if group.electing {
                return Err(GroupError::LastElectionNotFinished);
            }
            group.electing = true;
            bene_member.in_promotion = true;
        },
        ProposalType::Withdraw { mint, amount, .. } => {
            if bene_member.in_withdraw {
                return Err(GroupError::LastWithdrawNotFinished);
            }
            match vault {
                None => {
                    return Err(GroupError::AccountDoesNotExist);
                },
                Some(v) => {
                    if !id_eq(&v.mint, &mint) {
                        return Err(GroupError::WrongVaultTokenAccount);
                    }
                    if v.amount < amount {
                        return Err(GroupError::InsufficientTokenBalance);
                    }
                },
            }
            bene_member.in_withdraw = true;
        },
    }
    group.proposals = group.proposals + 1;
    let revoke_timeout: i64 = if let ProposalType::ReElection = kind {
        deadline
    } else {
        now + REVOKE_WINDOW
    };
    let proposal = ProposalAccount {
        submitter: *authority,
        beneficiary: *beneficiary,
        bene_member: *bene_member_id,
        group: *group_id,
        positive: 0,
        negative: 0,
        limit,
        deadline,
        revoke_timeout,
        close_timeout: deadline + CLOSE_GRACE,
        proposal_type: kind,
        status: ProposalStatus::Progressing,
    };
    let event = SubmitProposalEvent {
        ptype: crate::events::ProposalEventType::from(kind),
        submitter: *authority,
        submitter_member: *member_id,
        beneficiary: *beneficiary,
        bene_member: *bene_member_id,
        group: *group_id,
        proposal: *proposal_id,
        deadline,
        label: "SubmitProposal".to_string(),
    };
    Ok((proposal, event))
}

/// When [`update_proposal`] fails: the first guard it trips.
pub open spec fn update_proposal_error(
    g: GroupAccount,
    p: ProposalAccount,
    authority: Identity,
    deadline: i64,
) -> GroupError {
    if g.freeze {
        GroupError::FrozenGroup
    } else if p.submitter != authority {
        GroupError::OperationUnauthorized
    } else {
        match p.status {
            ProposalStatus::Progressing => GroupError::OnlyAllowedExtend,
            ProposalStatus::Updated { .. } => GroupError::AlreadyUpdated,
            _ => GroupError::AlreadyOutdated,
        }
    }
}

/// Extends a proposal's deadline, once: legal only for the submitter,
/// only while the proposal is `Progressing`, and only to a strictly later
/// deadline.  The status moves to `Updated`, after which a second call
/// fails `AlreadyUpdated` and a call on a terminal proposal fails
/// `AlreadyOutdated`.
pub fn update_proposal(
    proposal: &mut ProposalAccount,
    proposal_id: &Identity,
    group: &GroupAccount,
    group_id: &Identity,
    authority: &Identity,
    deadline: i64,
    now: i64,
) -> (r: Result<UpdateProposalEvent, GroupError>)
    ensures
        r is Ok <==> {
            &&& !group.freeze
            &&& old(proposal).submitter == *authority
            &&& old(proposal).status is Progressing
            &&& deadline > old(proposal).deadline
        },
        r is Err ==> *final(proposal) == *old(proposal) && r == Err::<
            UpdateProposalEvent,
            GroupError,
        >(update_proposal_error(*group, *old(proposal), *authority, deadline)),
        r matches Ok(e) ==> {
            &&& *final(proposal) == (ProposalAccount {
                deadline,
                status: ProposalStatus::Updated { time: now },
                ..*old(proposal)
            })
            &&& e == (UpdateProposalEvent {
                group: *group_id,
                proposal: *proposal_id,
                submitter: old(proposal).submitter,
                deadline,
                label: e.label,
            })
            &&& e.label@ == "UpdateProposal"@
        },
{
    if group.freeze {
        return Err(GroupError::FrozenGroup);
    }
    if !id_eq(&proposal.submitter, authority) {
        return Err(GroupError::OperationUnauthorized);
    }
    match proposal.status {
        ProposalStatus::Progressing => {
            if deadline <= proposal.deadline {
                return Err(GroupError::OnlyAllowedExtend);
            }
            proposal.deadline = deadline;
            proposal.status = ProposalStatus::Updated { time: now };
            Ok(
                UpdateProposalEvent {
                    group: *group_id,
                    proposal: *proposal_id,
                    submitter: proposal.submitter,
                    deadline,
                    label: "UpdateProposal".to_string(),
                },
            )
        },
        ProposalStatus::Updated { .. } => Err(GroupError::AlreadyUpdated),
        _ => Err(GroupError::AlreadyOutdated),
    }
}

/// When [`revoke_proposal`] fails: the first guard it trips.
pub open spec fn revoke_proposal_error(
    g: GroupAccount,
    p: ProposalAccount,
    bene: MemberAccount,
    authority: Identity,
    beneficiary: Identity,
    bene_member_id: Identity,
    now: i64,
) -> GroupError {
    if bene.owner != beneficiary {
        GroupError::MismatchedBeneMember
    } else if p.submitter != authority {
        GroupError::OperationUnauthorized
    } else if p.beneficiary != beneficiary || p.bene_member != bene_member_id {
        GroupError::MismatchedBeneMember
    } else if g.freeze {
        GroupError::FrozenGroup
    } else {
        GroupError::RevokeOutdated
    }
}

/// Withdraws a proposal's in-flight side effects while the submitter's
/// revocation window is still open: the per-kind flag set at submission
/// falls, vote tallies and status stay untouched, and the record store may
/// then reclaim the proposal.  Past the window this fails `RevokeOutdated`
/// whether or not the voting deadline has passed.
pub fn revoke_proposal(
    proposal: &ProposalAccount,
    group: &mut GroupAccount,
    bene_member: &mut MemberAccount,
    authority: &Identity,
    beneficiary: &Identity,
    bene_member_id: &Identity,
    now: i64,
) -> (r: Result<(), GroupError>)
    ensures
        r is Ok <==> {
            &&& old(bene_member).owner == *beneficiary
            &&& proposal.submitter == *authority
            &&& proposal.beneficiary == *beneficiary
            &&& proposal.bene_member == *bene_member_id
            &&& !old(group).freeze
            &&& now <= proposal.revoke_timeout
        },
        r is Err ==> {
            &&& *final(group) == *old(group)
            &&& *final(bene_member) == *old(bene_member)
            &&& r == Err::<(), GroupError>(
                revoke_proposal_error(
                    *old(group),
                    *proposal,
                    *old(bene_member),
                    *authority,
                    *beneficiary,
                    *bene_member_id,
                    now,
                ),
            )
        },
        r is Ok ==> {
            &&& *final(bene_member) == (match proposal.proposal_type {
                ProposalType::Upgrade | ProposalType::Downgrade => (MemberAccount {
                    in_promotion: false,
                    ..*old(bene_member)
                }),
                ProposalType::Withdraw { .. } => (MemberAccount {
                    in_withdraw: false,
                    ..*old(bene_member)
                }),
                _ => *old(bene_member),
            })
            &&& *final(group) == (match proposal.proposal_type {
                ProposalType::ReElection => (GroupAccount { electing: false, ..*old(group) }),
                ProposalType::UpdateGroup { .. } => (GroupAccount {
                    update: false,
                    ..*old(group)
                }),
                _ => *old(group),
            })
        },
{
    if !id_eq(&bene_member.owner, beneficiary) {
        return Err(GroupError::MismatchedBeneMember);
    }
    if !id_eq(&proposal.submitter, authority) {
        return Err(GroupError::OperationUnauthorized);
    }
    if !id_eq(&proposal.beneficiary, beneficiary) {
        return Err(GroupError::MismatchedBeneMember);
    }
    if !id_eq(&proposal.bene_member, bene_member_id) {
        return Err(GroupError::MismatchedBeneMember);
    }
    if group.freeze {
        return Err(GroupError::FrozenGroup);
    }
    if let Err(e) = utils::is_not_outdated(proposal, now) {
        return Err(e);
    }
    match proposal.proposal_type {
        ProposalType::Upgrade | ProposalType::Downgrade => {
            bene_member.in_promotion = false;
        },
        ProposalType::Withdraw { .. } => {
            bene_member.in_withdraw = false;
        },
        ProposalType::ReElection => {
            group.electing = false;
        },
        ProposalType::UpdateGroup { .. } => {
            group.update = false;
        },
    }
    Ok(())
}

/// When [`close_proposal`] fails: the first guard it trips.
pub open spec fn close_proposal_error(
    g: GroupAccount,
    group_id: Identity,
    p: ProposalAccount,
    bene: MemberAccount,
    authority: Identity,
    beneficiary: Identity,
    now: i64,
) -> GroupError {
    if bene.group != group_id {
        GroupError::MismatchedGroup
    } else if bene.owner != beneficiary {
        GroupError::OperationUnauthorized
    } else if p.submitter != authority {
        GroupError::OperationUnauthorized
    } else if g.freeze {
        GroupError::FrozenGroup
    } else {
        GroupError::NotAllowedToCloseProgressingProposal
    }
}

/// Decides whether the record store may reclaim a proposal: only once it
/// is terminal, or once its voting window elapsed without a decision.
/// The target member must belong to the group the proposal names.
pub fn close_proposal(
    proposal: &ProposalAccount,
    group: &GroupAccount,
    group_id: &Identity,
    bene_member: &MemberAccount,
    authority: &Identity,
    beneficiary: &Identity,
    now: i64,
) -> (r: Result<(), GroupError>)
    ensures
        r is Ok <==> {
            &&& bene_member.group == *group_id
            &&& bene_member.owner == *beneficiary
            &&& proposal.submitter == *authority
            &&& !group.freeze
            &&& (crate::proposal::is_terminal(proposal.status) || proposal.deadline <= now)
        },
        r is Err ==> r == Err::<(), GroupError>(
            close_proposal_error(
                *group,
                *group_id,
                *proposal,
                *bene_member,
                *authority,
                *beneficiary,
                now,
            ),
        ),
{
    if !id_eq(&bene_member.group, group_id) {
        return Err(GroupError::MismatchedGroup);
    }
    if !id_eq(&bene_member.owner, beneficiary) {
        return Err(GroupError::OperationUnauthorized);
    }
    if !id_eq(&proposal.submitter, authority) {
        return Err(GroupError::OperationUnauthorized);
    }
    if group.freeze {
        return Err(GroupError::FrozenGroup);
    }
    if let Err(e) = utils::is_proposal_allow_close(proposal, now) {
        return Err(e);
    }
    Ok(())
}

/// When [`close_signature`] fails: the first guard it trips.
pub open spec fn close_signature_error(
    g: GroupAccount,
    s: SignatureAccount,
    authority: Identity,
    proposal_id: Identity,
) -> GroupError {
    if g.freeze {
        GroupError::FrozenGroup
    } else if s.signer != authority {
        GroupError::MismatchedSigner
    } else if s.proposal != proposal_id {
        GroupError::MismatchedProposal
    } else {
        GroupError::NotAllowedToClose
    }
}

/// Decides whether the record store may reclaim a vote record: once its
/// proposal is terminal or past its voting window, or unconditionally when
/// the proposal record itself is already gone (`None`).
pub fn close_signature(
    signature: &SignatureAccount,
    group: &GroupAccount,
    authority: &Identity,
    proposal_id: &Identity,
    proposal: Option<&ProposalAccount>,
    now: i64,
) -> (r: Result<(), GroupError>)
    ensures
        r is Ok <==> {
            &&& !group.freeze
            &&& signature.signer == *authority
            &&& signature.proposal == *proposal_id
            &&& match proposal {
                Some(p) => crate::proposal::is_terminal(p.status) || p.deadline <= now,
                None => true,
            }
        },
        r is Err ==> r == Err::<(), GroupError>(
            close_signature_error(*group, *signature, *authority, *proposal_id),
        ),
{
    if group.freeze {
        return Err(GroupError::FrozenGroup);
    }
    if !id_eq(&signature.signer, authority) {
        return Err(GroupError::MismatchedSigner);
    }
    if !id_eq(&signature.proposal, proposal_id) {
        return Err(GroupError::MismatchedProposal);
    }
    if let Some(p) = proposal {
        match p.status {
            ProposalStatus::Progressing | ProposalStatus::Updated { .. } => {
                if p.deadline > now {
                    return Err(GroupError::NotAllowedToClose);
                }
            },
            _ => {},
        }
    }
    Ok(())
}

} // verus!
