//! Membership operations: joining and leaving a group, and the recovery
//! reset of a member stuck in an unresolved proposal.

use vstd::prelude::*;
use crate::errors::GroupError;
use crate::events::{ExitGroupEvent, JoinGroupEvent};
use crate::group::GroupAccount;
use crate::identity::{id_eq, Identity};
use crate::member::{MemberAccount, Position};
use crate::proposal::{ProposalAccount, ProposalType};

verus! {

/// True when a joiner finds the group empty and becomes its bootstrap
/// manager rather than an ordinary member.
pub open spec fn is_bootstrap(g: GroupAccount) -> bool {
    g.current_member == 0 && g.current_manager == 0
}

/// The group after a successful join: the matching counter one higher.
pub open spec fn join_effect(g: GroupAccount) -> GroupAccount {
    if is_bootstrap(g) {
        GroupAccount { current_manager: 1, ..g }
    } else {
        GroupAccount { current_member: (g.current_member + 1) as u32, ..g }
    }
}

/// The group after a successful exit of a member of rank `position`: the
/// matching counter one lower.
pub open spec fn exit_effect(g: GroupAccount, position: Position) -> GroupAccount {
    if position is Member {
        GroupAccount { current_member: (g.current_member - 1) as u32, ..g }
    } else {
        GroupAccount { current_manager: (g.current_manager - 1) as u32, ..g }
    }
}

/// Admits `user` into the group, funded by `authority`.  The first joiner
/// of an empty group becomes its manager; everyone after joins at the
/// member rank.  The matching group counter rises by one.
pub fn join_group(
    group: &mut GroupAccount,
    group_id: &Identity,
    user: &Identity,
    authority: &Identity,
    member_id: &Identity,
    now: i64,
) -> (r: Result<(MemberAccount, JoinGroupEvent), GroupError>)
    requires
        old(group).current_member < u32::MAX,
    ensures
        r is Ok <==> !old(group).freeze,
        r is Err ==> *final(group) == *old(group) && r == Err::<
            (MemberAccount, JoinGroupEvent),
            GroupError,
        >(GroupError::FrozenGroup),
        r matches Ok((m, e)) ==> {
            &&& m.position == (if is_bootstrap(*old(group)) {
                Position::Manager
            } else {
                Position::Member
            })
            &&& !m.in_promotion
            &&& !m.in_withdraw
            &&& m.group == *group_id
            &&& m.funder == *authority
            &&& m.owner == *user
            &&& *final(group) == join_effect(*old(group))
            &&& e == (JoinGroupEvent {
                user: *user,
                group: *group_id,
                member: *member_id,
                funder: *authority,
                time: now,
                label: e.label,
            })
            &&& e.label@ == "JoinGroup"@
        },
{
    if group.freeze {
        return Err(GroupError::FrozenGroup);
    }
    let position: Position;
    if group.current_member == 0 && group.current_manager == 0 {
        position = Position::Manager;
        group.current_manager = group.current_manager + 1;
    } else {
        position = Position::Member;
        group.current_member = group.current_member + 1;
    }
    let member = MemberAccount {
        position,
        in_promotion: false,
        in_withdraw: false,
        group: *group_id,
        funder: *authority,
        owner: *user,
    };
    let event = JoinGroupEvent {
        user: *user,
        group: *group_id,
        member: *member_id,
        funder: *authority,
        time: now,
        label: "JoinGroup".to_string(),
    };
    Ok((member, event))
}

/// When [`exit_group`] fails: the first guard it trips.
pub open spec fn exit_group_error(
    m: MemberAccount,
    g: GroupAccount,
    funder: Identity,
    authority: Identity,
    group_id: Identity,
) -> GroupError {
    if m.funder != funder {
        GroupError::MismatchedFunder
    } else if m.owner != authority {
        GroupError::OperationUnauthorized
    } else if g.freeze {
        GroupError::FrozenGroup
    } else {
        GroupError::MismatchedGroup
    }
}

/// Removes `member` from the group, lowering the counter of its rank.
/// While the group is frozen no one leaves.
pub fn exit_group(
    group: &mut GroupAccount,
    group_id: &Identity,
    member: &MemberAccount,
    member_id: &Identity,
    funder: &Identity,
    authority: &Identity,
    now: i64,
) -> (r: Result<ExitGroupEvent, GroupError>)
    requires
        (member.funder == *funder && member.owner == *authority && !old(group).freeze
            && member.group == *group_id) ==> (if member.position is Member {
            old(group).current_member >= 1
        } else {
            old(group).current_manager >= 1
        }),
    ensures
        r is Ok <==> {
            &&& member.funder == *funder
            &&& member.owner == *authority
            &&& !old(group).freeze
            &&& member.group == *group_id
        },
        r is Err ==> *final(group) == *old(group) && r == Err::<ExitGroupEvent, GroupError>(
            exit_group_error(*member, *old(group), *funder, *authority, *group_id),
        ),
        r matches Ok(e) ==> {
            &&& *final(group) == exit_effect(*old(group), member.position)
            &&& e == (ExitGroupEvent {
                user: *authority,
                group: *group_id,
                member: *member_id,
                funder: member.funder,
                time: now,
                label: e.label,
            })
            &&& e.label@ == "ExitGroup"@
        },
{
    if !id_eq(&member.funder, funder) {
        return Err(GroupError::MismatchedFunder);
    }
    if !id_eq(&member.owner, authority) {
        return Err(GroupError::OperationUnauthorized);
    }
    if group.freeze {
        return Err(GroupError::FrozenGroup);
    }
    if !id_eq(&member.group, group_id) {
        return Err(GroupError::MismatchedGroup);
    }
    match member.position {
        Position::Member => {
            group.current_member = group.current_member - 1;
        },
        Position::Manager => {
            group.current_manager = group.current_manager - 1;
        },
    }
    let event = ExitGroupEvent {
        user: *authority,
        group: *group_id,
        member: *member_id,
        funder: member.funder,
        time: now,
        label: "ExitGroup".to_string(),
    };
    Ok(event)
}

/// When [`reset_member`] fails: the first guard it trips.
pub open spec fn reset_member_error(
    m: MemberAccount,
    beneficiary: Identity,
    bene_member_id: Identity,
    p: ProposalAccount,
    now: i64,
) -> GroupError {
    if m.owner != beneficiary {
        GroupError::MismatchedBeneMember
    } else if !(m.in_promotion || m.in_withdraw) {
        GroupError::MemberNotInProposal
    } else if p.beneficiary != beneficiary || p.bene_member != bene_member_id {
        GroupError::MismatchedBeneMember
    } else {
        GroupError::ProposalNotOutdated
    }
}

/// Clears the in-flight flag a stalled proposal left on its target member,
/// once the proposal's voting window has elapsed.  Which flag falls depends
/// on the proposal's kind.
pub fn reset_member(
    bene_member: &mut MemberAccount,
    beneficiary: &Identity,
    bene_member_id: &Identity,
    proposal: &ProposalAccount,
    now: i64,
) -> (r: Result<(), GroupError>)
    ensures
        r is Ok <==> {
            &&& old(bene_member).owner == *beneficiary
            &&& old(bene_member).in_promotion || old(bene_member).in_withdraw
            &&& proposal.beneficiary == *beneficiary
            &&& proposal.bene_member == *bene_member_id
            &&& proposal.deadline <= now
        },
        r is Err ==> *final(bene_member) == *old(bene_member) && r == Err::<(), GroupError>(
            reset_member_error(*old(bene_member), *beneficiary, *bene_member_id, *proposal, now),
        ),
        r is Ok ==> *final(bene_member) == (match proposal.proposal_type {
            ProposalType::Upgrade | ProposalType::Downgrade | ProposalType::ReElection => (
            MemberAccount { in_promotion: false, ..*old(bene_member) }),
            ProposalType::Withdraw { .. } => (MemberAccount {
                in_withdraw: false,
                ..*old(bene_member)
            }),
            ProposalType::UpdateGroup { .. } => *old(bene_member),
        }),
{
    if !id_eq(&bene_member.owner, beneficiary) {
        return Err(GroupError::MismatchedBeneMember);
    }
    if !(bene_member.in_promotion || bene_member.in_withdraw) {
        return Err(GroupError::MemberNotInProposal);
    }
    if !id_eq(&proposal.beneficiary, beneficiary) {
        return Err(GroupError::MismatchedBeneMember);
    }
    if !id_eq(&proposal.bene_member, bene_member_id) {
        return Err(GroupError::MismatchedBeneMember);
    }
    if proposal.deadline > now {
        return Err(GroupError::ProposalNotOutdated);
    }
    match proposal.proposal_type {
        ProposalType::Upgrade | ProposalType::Downgrade | ProposalType::ReElection => {
            bene_member.in_promotion = false;
        },
        ProposalType::Withdraw { .. } => {
            bene_member.in_withdraw = false;
        },
        ProposalType::UpdateGroup { .. } => {},
    }
    Ok(())
}

} // verus!
