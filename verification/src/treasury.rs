//! Funding the group treasury.

use vstd::prelude::*;
use crate::errors::GroupError;
use crate::events::DepositTokenEvent;
use crate::group::GroupAccount;
use crate::identity::{id_eq, Identity};
use crate::member::MemberAccount;
use crate::tokens::{TokenAccountInfo, TokenTransfer};

verus! {

/// The accounts a deposit presents: the depositing member, its token
/// account, the group and its treasury vault, each as the caller observed
/// them, with their identities.
#[derive(Clone, Copy, Debug, PartialEq, Eq)]
pub struct DepositToken {
    pub authority: Identity,
    pub mint: Identity,
    pub member: MemberAccount,
    pub token: TokenAccountInfo,
    pub token_id: Identity,
    pub group: GroupAccount,
    pub group_id: Identity,
    pub vault_id: Identity,
}

impl DepositToken {
    /// The movement a deposit of `amount` requests: from the member's
    /// token account into the vault, on the depositor's own authority.
    pub open spec fn transfer_request(self, amount: u64) -> TokenTransfer {
        TokenTransfer { from: self.token_id, to: self.vault_id, authority: self.authority, amount }
    }

    /// Builds the transfer request for a deposit of `amount`.
    pub fn as_token_transfer_ctx(&self, amount: u64) -> (r: TokenTransfer)
        ensures
            r == self.transfer_request(amount),
    {
        TokenTransfer {
            from: self.token_id,
            to: self.vault_id,
            authority: self.authority,
            amount,
        }
    }
}

/// When [`deposit_token`] fails: the first guard it trips.
pub open spec fn deposit_token_error(accounts: DepositToken, amount: u64) -> GroupError {
    if accounts.member.owner != accounts.authority {
        GroupError::OperationUnauthorized
    } else if accounts.member.group != accounts.group_id {
        GroupError::MismatchedGroup
    } else if accounts.token.amount < amount {
        GroupError::InsufficientTokenBalance
    } else {
        GroupError::FrozenGroup
    }
}

/// Requests the transfer of `amount` from a member's token account into
/// the group's treasury vault.
pub fn deposit_token(accounts: &DepositToken, amount: u64) -> (r: Result<
    (TokenTransfer, DepositTokenEvent),
    GroupError,
>)
    ensures
        r is Ok <==> {
            &&& accounts.member.owner == accounts.authority
            &&& accounts.member.group == accounts.group_id
            &&& accounts.token.amount >= amount
            &&& !accounts.group.freeze
        },
        r is Err ==> r == Err::<(TokenTransfer, DepositTokenEvent), GroupError>(
            deposit_token_error(*accounts, amount),
        ),
        r matches Ok((t, e)) ==> {
            &&& t == accounts.transfer_request(amount)
            &&& e == (DepositTokenEvent {
                user: accounts.authority,
                group: accounts.group_id,
                vault: accounts.vault_id,
                mint: accounts.mint,
                amount,
                label: e.label,
            })
            &&& e.label@ == "DepositToken"@
        },
{
    if !id_eq(&accounts.member.owner, &accounts.authority) {
        return Err(GroupError::OperationUnauthorized);
    }
    if !id_eq(&accounts.member.group, &accounts.group_id) {
        return Err(GroupError::MismatchedGroup);
    }
    if accounts.token.amount < amount {
        return Err(GroupError::InsufficientTokenBalance);
    }
    if accounts.group.freeze {
        return Err(GroupError::FrozenGroup);
    }
    let transfer = accounts.as_token_transfer_ctx(amount);
    let event = DepositTokenEvent {
        user: accounts.authority,
        group: accounts.group_id,
        vault: accounts.vault_id,
        mint: accounts.mint,
        amount,
        label: "DepositToken".to_string(),
    };
    Ok((transfer, event))
}

} // verus!
