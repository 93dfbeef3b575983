//! The voting engine: casting a vote, evaluating quorum, and applying a
//! decided proposal's effect in the same atomic step.
//!
//! A vote consumes a stake of the proposal's `limit` (the burn request in
//! the outcome) and raises one side of the tally.  The instant the tally
//! first reaches the group's quorum threshold, the proposal decides:
//! strictly more votes for than against passes it, anything else — a tie
//! included — rejects it.  A passed proposal's effect lands on the group,
//! the target member, and (for a withdrawal) the treasury, all in this one
//! call; a rejected one only releases the per-kind in-flight flag, except
//! a rejected reconfiguration, which deliberately leaves `update` set.
//! A terminal status is absorbing: a vote on an already-decided proposal
//! fails `AlreadyOutdated`, so no decision is ever revisited or executed
//! twice.

use vstd::prelude::*;
use crate::errors::GroupError;
use crate::events::{event_type_of, ExecuteProposalEvent, ProposalResult, SignProposalEvent};
use crate::group::{quorum_threshold, GroupAccount};
use crate::identity::{id_eq, Identity};
use crate::member::{MemberAccount, Position};
use crate::proposal::{is_terminal, ProposalAccount, ProposalStatus, ProposalType};
use crate::signature::{SignType, SignatureAccount};
use crate::tokens::{TokenAccountInfo, TokenBurn, TokenTransfer};
use crate::utils;

verus! {

/// The treasury records a withdrawal execution reads: the observed vault
/// balance, the vault's identity, and the identity of the token account
/// the caller presented as receiver.
#[derive(Clone, Copy, Debug, PartialEq, Eq)]
pub struct WithdrawAccounts {
    pub vault: TokenAccountInfo,
    pub vault_id: Identity,
    pub receiver_id: Identity,
}

/// The voter-side accounts a vote presents: the voter, the stake asset,
/// the voter's token account as observed, the voter's membership record,
/// and the proposal record being voted on.
#[derive(Clone, Copy, Debug, PartialEq, Eq)]
pub struct SignProposal {
    pub authority: Identity,
    pub mint: Identity,
    pub token: TokenAccountInfo,
    pub token_id: Identity,
    pub member: MemberAccount,
    pub proposal: ProposalAccount,
}

impl SignProposal {
    /// The stake burn this vote requests: the proposal's `limit` of the
    /// asset, out of the voter's token account, on the voter's own
    /// authority.
    pub open spec fn burn_request(self) -> TokenBurn {
        TokenBurn {
            mint: self.mint,
            from: self.token_id,
            authority: self.authority,
            amount: self.proposal.limit,
        }
    }

    /// Builds the stake-burn request for this vote.
    pub fn as_token_burn_ctx(&self) -> (r: TokenBurn)
        ensures
            r == self.burn_request(),
    {
        TokenBurn {
            mint: self.mint,
            from: self.token_id,
            authority: self.authority,
            amount: self.proposal.limit,
        }
    }
}

/// Everything a successful vote hands back to the environment: the vote
/// record to persist, the stake burn to perform, the notifications to
/// emit, and — when a withdrawal passed — the treasury transfer to
/// perform.
#[derive(Debug, PartialEq, Eq)]
pub struct SignOutcome {
    pub signature: SignatureAccount,
    pub burn: TokenBurn,
    pub sign_event: SignProposalEvent,
    pub result: Option<ProposalResult>,
    pub execute_event: Option<ExecuteProposalEvent>,
    pub transfer: Option<TokenTransfer>,
}

/// The quorum rule: no decision below `threshold` participants; at or
/// above it, strictly more votes for than against passes, anything else
/// rejects.  A pure function of the tally and the threshold.
pub open spec fn quorum_decision(votes_for: u32, votes_against: u32, threshold: u64) -> Option<
    ProposalResult,
> {
    if votes_for + votes_against < threshold {
        None
    } else if votes_for > votes_against {
        Some(ProposalResult::Passed)
    } else {
        Some(ProposalResult::Rejected)
    }
}

/// Evaluates the quorum rule on a tally.
pub fn evaluate_quorum(votes_for: u32, votes_against: u32, threshold: u64) -> (r: Option<
    ProposalResult,
>)
    ensures
        r == quorum_decision(votes_for, votes_against, threshold),
{
    if (votes_for as u64) + (votes_against as u64) < threshold {
        None
    } else if votes_for > votes_against {
        Some(ProposalResult::Passed)
    } else {
        Some(ProposalResult::Rejected)
    }
}

/// The favorable tally after `sign` lands on `p`.
pub open spec fn votes_for_after(p: ProposalAccount, sign: SignType) -> int {
    p.positive + if sign is Agreed {
        1int
    } else {
        0int
    }
}

/// The unfavorable tally after `sign` lands on `p`.
pub open spec fn votes_against_after(p: ProposalAccount, sign: SignType) -> int {
    p.negative + if sign is Denied {
        1int
    } else {
        0int
    }
}

/// True when this very vote brings the tally to the group's quorum
/// threshold, deciding the proposal.
pub open spec fn sign_decides(p: ProposalAccount, g: GroupAccount, sign: SignType) -> bool {
    votes_for_after(p, sign) + votes_against_after(p, sign) >= quorum_threshold(g)
}

/// True when the decided tally passes the proposal: strictly more votes
/// for than against.  A tie rejects.
pub open spec fn sign_passes(p: ProposalAccount, sign: SignType) -> bool {
    votes_for_after(p, sign) > votes_against_after(p, sign)
}

/// The guards a deciding vote's execution step passes: the presented
/// target member must be the proposal's recorded beneficiary (except for a
/// reconfiguration, which touches no member), and a passing withdrawal
/// must find the observed vault holding the recorded asset and balance,
/// owned by the group, with the recorded receiver presented.
pub open spec fn sign_execute_ok(
    p: ProposalAccount,
    bene: MemberAccount,
    wa: Option<WithdrawAccounts>,
    group_id: Identity,
    sign: SignType,
) -> bool {
    match p.proposal_type {
        ProposalType::UpdateGroup { .. } => true,
        ProposalType::Withdraw { mint, receiver, amount } => {
            &&& bene.owner == p.beneficiary
            &&& (sign_passes(p, sign) ==> match wa {
                Some(w) => {
                    &&& w.vault.mint == mint
                    &&& w.vault.owner == group_id
                    &&& w.vault.amount >= amount
                    &&& w.receiver_id == receiver
                },
                None => false,
            })
        },
        _ => bene.owner == p.beneficiary,
    }
}

/// The guards [`sign_proposal`] passes when it succeeds: enough stake to
/// burn, the voter owning its membership record, the group not frozen, the
/// voting window open, the proposal not yet decided, and — when this vote
/// decides — the execution guards.
pub open spec fn sign_ok(
    p: ProposalAccount,
    g: GroupAccount,
    member: MemberAccount,
    token: TokenAccountInfo,
    bene: MemberAccount,
    authority: Identity,
    wa: Option<WithdrawAccounts>,
    group_id: Identity,
    sign: SignType,
    now: i64,
) -> bool {
    &&& token.amount >= p.limit
    &&& member.owner == authority
    &&& !g.freeze
    &&& now <= p.deadline
    &&& !is_terminal(p.status)
    &&& (sign_decides(p, g, sign) ==> sign_execute_ok(p, bene, wa, group_id, sign))
}

/// When [`sign_proposal`] fails: the first guard it trips.
pub open spec fn sign_error(
    p: ProposalAccount,
    g: GroupAccount,
    member: MemberAccount,
    token: TokenAccountInfo,
    bene: MemberAccount,
    authority: Identity,
    wa: Option<WithdrawAccounts>,
    group_id: Identity,
    sign: SignType,
    now: i64,
) -> GroupError {
    if token.amount < p.limit {
        GroupError::InsufficientTokenBalance
    } else if member.owner != authority {
        GroupError::OperationUnauthorized
    } else if g.freeze {
        GroupError::FrozenGroup
    } else if now > p.deadline {
        GroupError::ProposalOutdated
    } else if is_terminal(p.status) {
        GroupError::AlreadyOutdated
    } else if sign_passes(p, sign) {
        match p.proposal_type {
            ProposalType::Withdraw { mint, amount, .. } => {
                if bene.owner != p.beneficiary {
                    GroupError::MismatchedBeneMember
                } else {
                    match wa {
                        None => GroupError::AccountDoesNotExist,
                        Some(w) => {
                            if w.vault.mint != mint {
                                GroupError::MismatchedToken
                            } else if w.vault.owner != group_id {
                                GroupError::WrongVaultTokenAccount
                            } else if w.vault.amount < amount {
                                GroupError::InsufficientTokenBalance
                            } else {
                                GroupError::WrongReceiverTokenAccount
                            }
                        },
                    }
                }
            },
            _ => GroupError::MismatchedBeneMember,
        }
    } else {
        GroupError::MismatchedBeneMember
    }
}

/// The proposal's status after the vote: unchanged below quorum and on an
/// already-terminal proposal, terminal with this call's timestamp the
/// moment the vote decides.
pub open spec fn status_after(
    p: ProposalAccount,
    g: GroupAccount,
    sign: SignType,
    now: i64,
) -> ProposalStatus {
    if is_terminal(p.status) || !sign_decides(p, g, sign) {
        p.status
    } else if sign_passes(p, sign) {
        ProposalStatus::Passed { time: now }
    } else {
        ProposalStatus::Rejected { time: now }
    }
}

/// The group after the vote.  A passed promotion or election moves one
/// user from the member to the manager counter; a passed demotion moves
/// one back; a passed reconfiguration raises the capacity and clears
/// `update`; an election decided either way clears `electing`.  A rejected
/// reconfiguration leaves `update` set — resubmission is its recovery
/// path.
pub open spec fn group_after(
    p: ProposalAccount,
    g: GroupAccount,
    sign: SignType,
) -> GroupAccount {
    if is_terminal(p.status) || !sign_decides(p, g, sign) {
        g
    } else if sign_passes(p, sign) {
        match p.proposal_type {
            ProposalType::Upgrade => GroupAccount {
                current_member: (g.current_member - 1) as u32,
                current_manager: (g.current_manager + 1) as u32,
                ..g
            },
            ProposalType::Downgrade => GroupAccount {
                current_manager: (g.current_manager - 1) as u32,
                current_member: (g.current_member + 1) as u32,
                ..g
            },
            ProposalType::UpdateGroup { max_manager } => GroupAccount {
                max_manager,
                update: false,
                ..g
            },
            ProposalType::ReElection => GroupAccount {
                current_member: (g.current_member - 1) as u32,
                current_manager: (g.current_manager + 1) as u32,
                electing: false,
                ..g
            },
            ProposalType::Withdraw { .. } => g,
        }
    } else {
        if p.proposal_type is ReElection {
            GroupAccount { electing: false, ..g }
        } else {
            g
        }
    }
}

/// The target member after the vote.  A passed promotion or election makes
/// it a manager, a passed demotion a member; the per-kind in-flight flag
/// falls on either outcome; a reconfiguration never touches it.
pub open spec fn bene_after(
    p: ProposalAccount,
    g: GroupAccount,
    m: MemberAccount,
    sign: SignType,
) -> MemberAccount {
    if is_terminal(p.status) || !sign_decides(p, g, sign) {
        m
    } else if sign_passes(p, sign) {
        match p.proposal_type {
            ProposalType::Upgrade | ProposalType::ReElection => MemberAccount {
                position: Position::Manager,
                in_promotion: false,
                ..m
            },
            ProposalType::Downgrade => MemberAccount {
                position: Position::Member,
                in_promotion: false,
                ..m
            },
            ProposalType::UpdateGroup { .. } => m,
            ProposalType::Withdraw { .. } => MemberAccount { in_withdraw: false, ..m },
        }
    } else {
        match p.proposal_type {
            ProposalType::UpdateGroup { .. } => m,
            ProposalType::Withdraw { .. } => MemberAccount { in_withdraw: false, ..m },
            _ => MemberAccount { in_promotion: false, ..m },
        }
    }
}

/// The treasury movement a vote requests: only a vote that passes a
/// withdrawal requests one, moving the recorded amount from the observed
/// vault to the presented receiver on the group's authority.
pub open spec fn transfer_after(
    p: ProposalAccount,
    g: GroupAccount,
    sign: SignType,
    wa: Option<WithdrawAccounts>,
    group_id: Identity,
) -> Option<TokenTransfer> {
    if !is_terminal(p.status) && sign_decides(p, g, sign) && sign_passes(p, sign) {
        match (wa, p.proposal_type) {
            (Some(w), ProposalType::Withdraw { amount, .. }) => Some(
                TokenTransfer { from: w.vault_id, to: w.receiver_id, authority: group_id, amount },
            ),
            _ => None,
        }
    } else {
        None
    }
}

/// Casts `sign` on the proposal for a stake of its `limit`, and applies
/// the decision this vote may reach.  A proposal that has already decided
/// takes no further vote: the call fails `AlreadyOutdated` and changes
/// nothing.  `wa` is the caller's observation of the treasury accounts a
/// withdrawal execution reads; other kinds, and votes that decide
/// nothing, ignore it.
pub fn sign_proposal(
    proposal: &mut ProposalAccount,
    proposal_id: &Identity,
    group: &mut GroupAccount,
    group_id: &Identity,
    member: &MemberAccount,
    authority: &Identity,
    mint: &Identity,
    token: &TokenAccountInfo,
    token_id: &Identity,
    bene_member: &mut MemberAccount,
    signature_id: &Identity,
    sign: SignType,
    now: i64,
    wa: Option<WithdrawAccounts>,
) -> (r: Result<SignOutcome, GroupError>)
    requires
        old(proposal).positive + old(proposal).negative < u32::MAX,
        (sign_decides(*old(proposal), *old(group), sign) && sign_passes(*old(proposal), sign))
            ==> match old(proposal).proposal_type {
            ProposalType::Upgrade | ProposalType::ReElection => old(group).current_member >= 1
                && old(group).current_manager < u32::MAX,
            ProposalType::Downgrade => old(group).current_manager >= 1 && old(
                group,
            ).current_member < u32::MAX,
            _ => true,
        },
    ensures
        r is Ok <==> sign_ok(
            *old(proposal),
            *old(group),
            *member,
            *token,
            *old(bene_member),
            *authority,
            wa,
            *group_id,
            sign,
            now,
        ),
        r is Err ==> {
            &&& *final(proposal) == *old(proposal)
            &&& *final(group) == *old(group)
            &&& *final(bene_member) == *old(bene_member)
            &&& r == Err::<SignOutcome, GroupError>(
                sign_error(
                    *old(proposal),
                    *old(group),
                    *member,
                    *token,
                    *old(bene_member),
                    *authority,
                    wa,
                    *group_id,
                    sign,
                    now,
                ),
            )
        },
        r matches Ok(out) ==> {
            &&& *final(proposal) == (ProposalAccount {
                positive: votes_for_after(*old(proposal), sign) as u32,
                negative: votes_against_after(*old(proposal), sign) as u32,
                status: status_after(*old(proposal), *old(group), sign, now),
                ..*old(proposal)
            })
            &&& *final(group) == group_after(*old(proposal), *old(group), sign)
            &&& *final(bene_member) == bene_after(
                *old(proposal),
                *old(group),
                *old(bene_member),
                sign,
            )
            &&& out.signature == (SignatureAccount {
                signer: *authority,
                created_at: now,
                amount: old(proposal).limit,
                proposal: *proposal_id,
                sign_type: sign,
            })
            &&& out.burn == (TokenBurn {
                mint: *mint,
                from: *token_id,
                authority: *authority,
                amount: old(proposal).limit,
            })
            &&& out.result == quorum_decision(
                votes_for_after(*old(proposal), sign) as u32,
                votes_against_after(*old(proposal), sign) as u32,
                quorum_threshold(*old(group)),
            )
            &&& out.sign_event == (SignProposalEvent {
                ptype: event_type_of(old(proposal).proposal_type),
                submitter: old(proposal).submitter,
                beneficiary: old(proposal).beneficiary,
                group: old(proposal).group,
                proposal: *proposal_id,
                stype: sign,
                signer: *authority,
                signature: *signature_id,
                label: out.sign_event.label,
            })
            &&& out.sign_event.label@ == "SignProposal"@
            &&& (match out.execute_event {
                Some(e) => {
                    &&& sign_decides(*old(proposal), *old(group), sign)
                    &&& e == (ExecuteProposalEvent {
                        ptype: event_type_of(old(proposal).proposal_type),
                        submitter: old(proposal).submitter,
                        beneficiary: old(proposal).beneficiary,
                        group: old(proposal).group,
                        proposal: *proposal_id,
                        result: if sign_passes(*old(proposal), sign) {
                            ProposalResult::Passed
                        } else {
                            ProposalResult::Rejected
                        },
                        label: e.label,
                    })
                    &&& e.label@ == "ExecuteProposal"@
                },
                None => !sign_decides(*old(proposal), *old(group), sign),
            })
            &&& out.transfer == transfer_after(*old(proposal), *old(group), sign, wa, *group_id)
        },
{
    if token.amount < proposal.limit {
        return Err(GroupError::InsufficientTokenBalance);
    }
    if !id_eq(&member.owner, authority) {
        return Err(GroupError::OperationUnauthorized);
    }
    if group.freeze {
        return Err(GroupError::FrozenGroup);
    }
    if let Err(e) = utils::is_valid_elapse(proposal, now) {
        return Err(e);
    }
    match proposal.status {
        ProposalStatus::Passed { .. } | ProposalStatus::Rejected { .. } => {
            return Err(GroupError::AlreadyOutdated);
        },
        _ => {},
    }
    let pos_after: u32 = if let SignType::Agreed = sign {
        proposal.positive + 1
    } else {
        proposal.positive
    };
    let neg_after: u32 = if let SignType::Denied = sign {
        proposal.negative + 1
    } else {
        proposal.negative
    };
    let hence = group.hence();
    let decision = evaluate_quorum(pos_after, neg_after, hence);
    let mut transfer: Option<TokenTransfer> = None;
    let mut execute_event: Option<ExecuteProposalEvent> = None;
    match decision {
        None => {},
        Some(outcome) => {
            // Guards of the execution step: all of them run before any
            // record changes, so a failing one aborts the whole vote.
            match proposal.proposal_type {
                ProposalType::UpdateGroup { .. } => {},
                ProposalType::Withdraw { mint: asset, receiver, amount } => {
                    if !id_eq(&bene_member.owner, &proposal.beneficiary) {
                        return Err(GroupError::MismatchedBeneMember);
                    }
                    if let ProposalResult::Passed = outcome {
                        match wa {
                            None => {
                                return Err(GroupError::AccountDoesNotExist);
                            },
                            Some(w) => {
                                if !id_eq(&w.vault.mint, &asset) {
                                    return Err(GroupError::MismatchedToken);
                                }
                                if !id_eq(&w.vault.owner, group_id) {
                                    return Err(GroupError::WrongVaultTokenAccount);
                                }
                                if w.vault.amount < amount {
                                    return Err(GroupError::InsufficientTokenBalance);
                                }
                                if !id_eq(&w.receiver_id, &receiver) {
                                    return Err(GroupError::WrongReceiverTokenAccount);
                                }
                                transfer = Some(
                                    TokenTransfer {
                                        from: w.vault_id,
                                        to: w.receiver_id,
                                        authority: *group_id,
                                        amount,
                                    },
                                );
                            },
                        }
                    }
                },
                _ => {
                    if !id_eq(&bene_member.owner, &proposal.beneficiary) {
                        return Err(GroupError::MismatchedBeneMember);
                    }
                },
            }
            // The effect, applied atomically with the decision.
            match outcome {
                ProposalResult::Passed => {
                    proposal.status = ProposalStatus::Passed { time: now };
                    match proposal.proposal_type {
                        ProposalType::Upgrade => {
                            bene_member.position = Position::Manager;
                            bene_member.in_promotion = false;
                            group.current_member = group.current_member - 1;
                            group.current_manager = group.current_manager + 1;
                        },
                        ProposalType::Downgrade => {
                            bene_member.position = Position::Member;
                            bene_member.in_promotion = false;
                            group.current_manager = group.current_manager - 1;
                            group.current_member = group.current_member + 1;
                        },
                        ProposalType::UpdateGroup { max_manager } => {
                            group.max_manager = max_manager;
                            group.update = false;
                        },
                        ProposalType::ReElection => {
                            bene_member.position = Position::Manager;
                            bene_member.in_promotion = false;
                            group.current_member = group.current_member - 1;
                            group.current_manager = group.current_manager + 1;
                            group.electing = false;
                        },
                        ProposalType::Withdraw { .. } => {
                            bene_member.in_withdraw = false;
                        },
                    }
                },
                ProposalResult::Rejected => {
                    proposal.status = ProposalStatus::Rejected { time: now };
                    match proposal.proposal_type {
                        ProposalType::Upgrade | ProposalType::Downgrade
                        | ProposalType::ReElection => {
                            bene_member.in_promotion = false;
                        },
                        ProposalType::Withdraw { .. } => {
                            bene_member.in_withdraw = false;
                        },
                        ProposalType::UpdateGroup { .. } => {},
                    }
                    if let ProposalType::ReElection = proposal.proposal_type {
                        group.electing = false;
                    }
                },
            }
            execute_event = Some(
                ExecuteProposalEvent {
                    ptype: crate::events::ProposalEventType::from(proposal.proposal_type),
                    submitter: proposal.submitter,
                    beneficiary: proposal.beneficiary,
                    group: proposal.group,
                    proposal: *proposal_id,
                    result: outcome,
                    label: "ExecuteProposal".to_string(),
                },
            );
        },
    }
    proposal.positive = pos_after;
    proposal.negative = neg_after;
    let signature = SignatureAccount {
        signer: *authority,
        created_at: now,
        amount: proposal.limit,
        proposal: *proposal_id,
        sign_type: sign,
    };
    let burn = TokenBurn {
        mint: *mint,
        from: *token_id,
        authority: *authority,
        amount: proposal.limit,
    };
    let sign_event = SignProposalEvent {
        ptype: crate::events::ProposalEventType::from(proposal.proposal_type),
        submitter: proposal.submitter,
        beneficiary: proposal.beneficiary,
        group: proposal.group,
        proposal: *proposal_id,
        stype: sign,
        signer: *authority,
        signature: *signature_id,
        label: "SignProposal".to_string(),
    };
    Ok(
        SignOutcome {
            signature,
            burn,
            sign_event,
            result: decision,
            execute_event,
            transfer,
        },
    )
}

} // verus!
