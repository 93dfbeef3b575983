//! The library-wide laws: proof functions stating what holds of every
//! group and every proposal across the operations, proved from the
//! transition functions the operations' own contracts use.

use vstd::prelude::*;
use crate::group::GroupAccount;
use crate::member::Position;
use crate::membership::{exit_effect, is_bootstrap, join_effect};
use crate::proposal::{is_terminal, ProposalAccount, ProposalStatus, ProposalType};
use crate::signature::SignType;
use crate::events::ProposalResult;
use crate::voting::{
    group_after, quorum_decision, sign_decides, sign_passes, status_after, votes_against_after,
    votes_for_after,
};

verus! {

/// A group's managers never outnumber its manager capacity.
pub open spec fn manager_bound_ok(g: GroupAccount) -> bool {
    g.current_manager <= g.max_manager
}

/// Joining keeps the manager bound, provided a group meant to bootstrap a
/// manager was created with capacity for one.
pub proof fn lemma_join_preserves_manager_bound(g: GroupAccount)
    requires
        manager_bound_ok(g),
        is_bootstrap(g) ==> g.max_manager >= 1,
    ensures
        manager_bound_ok(join_effect(g)),
{
}

/// Leaving keeps the manager bound: counters only fall.
pub proof fn lemma_exit_preserves_manager_bound(g: GroupAccount, position: Position)
    requires
        manager_bound_ok(g),
        position is Member ==> g.current_member >= 1,
        position is Manager ==> g.current_manager >= 1,
    ensures
        manager_bound_ok(exit_effect(g, position)),
{
}

/// A decided vote keeps the manager bound, provided a vote that promotes
/// finds the council below capacity — which the submission guard
/// established and which only another promotion decided in between could
/// disturb — and a passed reconfiguration raises the capacity past the
/// current council, which its own submission guard established.
pub proof fn lemma_sign_preserves_manager_bound(
    p: ProposalAccount,
    g: GroupAccount,
    sign: SignType,
)
    requires
        manager_bound_ok(g),
        (sign_decides(p, g, sign) && sign_passes(p, sign) && (p.proposal_type is Upgrade
            || p.proposal_type is ReElection)) ==> g.current_manager < g.max_manager,
        (sign_decides(p, g, sign) && sign_passes(p, sign) && p.proposal_type is Downgrade)
            ==> g.current_manager >= 1,
        (sign_decides(p, g, sign) && sign_passes(p, sign)) ==> match p.proposal_type {
            ProposalType::UpdateGroup { max_manager } => max_manager >= g.current_manager,
            _ => true,
        },
    ensures
        manager_bound_ok(group_after(p, g, sign)),
{
}

/// Whether `after` may follow `before` in a proposal's life:
/// `Progressing` to `Updated` to a terminal status, stages skippable,
/// never a step back and never out of a terminal status.
pub open spec fn status_order_respected(before: ProposalStatus, after: ProposalStatus) -> bool {
    ||| before == after
    ||| (before is Progressing && (after is Updated || is_terminal(after)))
    ||| (before is Updated && is_terminal(after))
}

/// A vote moves a proposal's status only forward: it stays, or it becomes
/// terminal the moment the vote decides; a terminal status is absorbing
/// and never revisited.
pub proof fn lemma_sign_status_monotonic(
    p: ProposalAccount,
    g: GroupAccount,
    sign: SignType,
    now: i64,
)
    ensures
        status_order_respected(p.status, status_after(p, g, sign, now)),
{
}

/// A deadline extension moves the status only forward: `Progressing` to
/// `Updated`.
pub proof fn lemma_update_status_monotonic(p: ProposalAccount, now: i64)
    requires
        p.status is Progressing,
    ensures
        status_order_respected(p.status, ProposalStatus::Updated { time: now }),
{
}

/// The quorum rule in full: below the threshold no decision; at or above
/// it, exactly one of `Passed` and `Rejected`, by whether the votes for
/// strictly outnumber the votes against.  Being a function of the tally
/// and threshold alone, the decision is deterministic.
pub proof fn lemma_quorum_decision_rule(votes_for: u32, votes_against: u32, threshold: u64)
    ensures
        quorum_decision(votes_for, votes_against, threshold) is Some <==> votes_for + votes_against
            >= threshold,
        quorum_decision(votes_for, votes_against, threshold) == Some(ProposalResult::Passed) <==> (
        votes_for + votes_against >= threshold && votes_for > votes_against),
        quorum_decision(votes_for, votes_against, threshold) == Some(ProposalResult::Rejected)
            <==> (votes_for + votes_against >= threshold && votes_for <= votes_against),
{
}

/// The decision a deciding vote reaches agrees with the quorum rule
/// evaluated on the tally it produces.
pub proof fn lemma_sign_follows_quorum_rule(p: ProposalAccount, g: GroupAccount, sign: SignType)
    requires
        p.positive + p.negative < u32::MAX,
    ensures
        sign_decides(p, g, sign) <==> quorum_decision(
            votes_for_after(p, sign) as u32,
            votes_against_after(p, sign) as u32,
            crate::group::quorum_threshold(g),
        ) is Some,
        (sign_decides(p, g, sign) && sign_passes(p, sign)) <==> quorum_decision(
            votes_for_after(p, sign) as u32,
            votes_against_after(p, sign) as u32,
            crate::group::quorum_threshold(g),
        ) == Some(ProposalResult::Passed),
{
}

} // verus!
