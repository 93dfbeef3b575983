//! The guard checks shared by the operations: authorization, timing and
//! stake validity.

use vstd::prelude::*;
use crate::admin::{holds_admin, AdminAccount};
use crate::errors::GroupError;
use crate::identity::Identity;
use crate::proposal::ProposalAccount;

verus! {

/// The floor on how far in the future a proposal's deadline must lie,
/// in seconds: twelve hours.
pub const TIME_ELAPSE: i64 = 43200;

/// Passes only for an administrator of `admin`.
pub fn is_admin(admin: &AdminAccount, user: &Identity) -> (r: Result<(), GroupError>)
    ensures
        r is Ok <==> holds_admin(*admin, *user),
        r is Err ==> r == Err::<(), GroupError>(GroupError::OperationUnauthorized),
{
    if !admin.is_admin(user) {
        return Err(GroupError::OperationUnauthorized);
    }
    Ok(())
}

/// Passes only for a user who is not an administrator of `admin`.
pub fn is_not_admin(admin: &AdminAccount, user: &Identity) -> (r: Result<(), GroupError>)
    ensures
        r is Ok <==> !holds_admin(*admin, *user),
        r is Err ==> r == Err::<(), GroupError>(GroupError::AlreadyAdmin),
{
    if admin.is_admin(user) {
        return Err(GroupError::AlreadyAdmin);
    }
    Ok(())
}

/// Passes only for a deadline at least [`TIME_ELAPSE`] past `now`.
pub fn is_valid_deadline(now: i64, deadline: i64) -> (r: Result<(), GroupError>)
    requires
        now + TIME_ELAPSE <= i64::MAX,
    ensures
        r is Ok <==> deadline >= now + TIME_ELAPSE,
        r is Err ==> r == Err::<(), GroupError>(GroupError::NotEnoughTimeElapse),
{
    if deadline < now + TIME_ELAPSE {
        return Err(GroupError::NotEnoughTimeElapse);
    }
    Ok(())
}

/// Passes only for a positive stake limit.
pub fn is_valid_limit(limit: u64) -> (r: Result<(), GroupError>)
    ensures
        r is Ok <==> limit != 0,
        r is Err ==> r == Err::<(), GroupError>(GroupError::InvalidLimit),
{
    if limit == 0 {
        return Err(GroupError::InvalidLimit);
    }
    Ok(())
}

/// Passes only while the proposal's revocation window is still open.
pub fn is_not_outdated(proposal: &ProposalAccount, now: i64) -> (r: Result<(), GroupError>)
    ensures
        r is Ok <==> now <= proposal.revoke_timeout,
        r is Err ==> r == Err::<(), GroupError>(GroupError::RevokeOutdated),
{
    if now > proposal.revoke_timeout {
        return Err(GroupError::RevokeOutdated);
    }
    Ok(())
}

/// Passes only while the proposal's voting window is still open.
pub fn is_valid_elapse(proposal: &ProposalAccount, now: i64) -> (r: Result<(), GroupError>)
    ensures
        r is Ok <==> now <= proposal.deadline,
        r is Err ==> r == Err::<(), GroupError>(GroupError::ProposalOutdated),
{
    if now > proposal.deadline {
        return Err(GroupError::ProposalOutdated);
    }
    Ok(())
}

/// Passes once a proposal is terminal, or once its voting window has
/// elapsed without a decision.
pub fn is_proposal_allow_close(proposal: &ProposalAccount, now: i64) -> (r: Result<
    (),
    GroupError,
>)
    ensures
        r is Ok <==> (crate::proposal::is_terminal(proposal.status) || proposal.deadline <= now),
        r is Err ==> r == Err::<(), GroupError>(
            GroupError::NotAllowedToCloseProgressingProposal,
        ),
{
    match proposal.status {
        crate::proposal::ProposalStatus::Progressing
        | crate::proposal::ProposalStatus::Updated { .. } => {
            if proposal.deadline > now {
                return Err(GroupError::NotAllowedToCloseProgressingProposal);
            }
        },
        _ => {},
    }
    Ok(())
}

} // verus!
