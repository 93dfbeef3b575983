//! Administrator-driven operations: registry maintenance and the group
//! lifecycle (creation, freeze/thaw, rate reconfiguration, flag reset).
//!
//! Guards run in the order the environment evaluates them — record
//! constraints first, then caller authorization — and the first failing
//! guard names the error.  No record changes when an error is returned.

use vstd::prelude::*;
use crate::admin::{holds_admin, swap_removed, AdminAccount};
use crate::errors::GroupError;
use crate::events::{FreezeGroupEvent, ThawGroupEvent, UpgradeGroupEvent};
use crate::group::{GroupAccount, ParticipateRate};
use crate::identity::{zero_id, zero_identity, Identity};
use crate::utils;

verus! {

/// Creates the administrator registry with `authority` as its one entry.
///
/// The record store refuses a second registry under the same authority;
/// this operation itself is total.
pub fn initialize(seed: u8, token_mint: &Identity, authority: &Identity) -> (r: AdminAccount)
    ensures
        r.wf(),
        r.seed == seed,
        r.current == 1,
        r.initialized,
        r.groups == 0,
        r.token_mint == *token_mint,
        r.administrators@[0] == *authority,
        forall|i: int| 1 <= i < 10 ==> r.administrators@[i] == zero_identity(),
{
    let mut admin = AdminAccount {
        seed,
        current: 0,
        initialized: true,
        groups: 0,
        token_mint: *token_mint,
        administrators: [zero_id(); 10],
    };
    admin.add_administrator(authority);
    admin
}

/// When [`add_admin`] fails: the first guard it trips.
pub open spec fn add_admin_error(a: AdminAccount, authority: Identity, user: Identity) -> GroupError {
    if !a.initialized {
        GroupError::NotInitialized
    } else if a.current >= 10 {
        GroupError::InsufficientAdminSlot
    } else if !holds_admin(a, authority) {
        GroupError::OperationUnauthorized
    } else {
        GroupError::AlreadyAdmin
    }
}

/// Adds `user` to the registry on `authority`'s authority.
pub fn add_admin(admin: &mut AdminAccount, authority: &Identity, user: &Identity) -> (r: Result<
    (),
    GroupError,
>)
    requires
        old(admin).wf(),
    ensures
        final(admin).wf(),
        r is Ok <==> {
            &&& old(admin).initialized
            &&& old(admin).current < 10
            &&& holds_admin(*old(admin), *authority)
            &&& !holds_admin(*old(admin), *user)
        },
        r is Err ==> *final(admin) == *old(admin) && r == Err::<(), GroupError>(
            add_admin_error(*old(admin), *authority, *user),
        ),
        r is Ok ==> {
            &&& final(admin).administrators@ == old(admin).administrators@.update(
                old(admin).current as int,
                *user,
            )
            &&& final(admin).current == old(admin).current + 1
            &&& final(admin).seed == old(admin).seed
            &&& final(admin).initialized == old(admin).initialized
            &&& final(admin).groups == old(admin).groups
            &&& final(admin).token_mint == old(admin).token_mint
        },
{
    if !admin.initialized {
        return Err(GroupError::NotInitialized);
    }
    if admin.is_full() {
        return Err(GroupError::InsufficientAdminSlot);
    }
    if let Err(e) = utils::is_admin(admin, authority) {
        return Err(e);
    }
    if let Err(e) = utils::is_not_admin(admin, user) {
        return Err(e);
    }
    admin.add_administrator(user);
    Ok(())
}

/// When [`remove_admin`] fails: the first guard it trips.
pub open spec fn remove_admin_error(
    a: AdminAccount,
    authority: Identity,
    user: Identity,
) -> GroupError {
    if !a.initialized {
        GroupError::NotInitialized
    } else {
        GroupError::OperationUnauthorized
    }
}

/// Removes `user` from the registry on `authority`'s authority, swapping
/// the last occupied slot into the freed position.
pub fn remove_admin(admin: &mut AdminAccount, authority: &Identity, user: &Identity) -> (r: Result<
    (),
    GroupError,
>)
    requires
        old(admin).wf(),
        holds_admin(*old(admin), *user) ==> old(admin).current >= 1,
    ensures
        final(admin).wf(),
        r is Ok <==> {
            &&& old(admin).initialized
            &&& holds_admin(*old(admin), *authority)
            &&& holds_admin(*old(admin), *user)
        },
        r is Err ==> *final(admin) == *old(admin) && r == Err::<(), GroupError>(
            remove_admin_error(*old(admin), *authority, *user),
        ),
        r is Ok ==> {
            &&& swap_removed(*old(admin), *final(admin), *user)
            &&& final(admin).current == old(admin).current - 1
            &&& final(admin).seed == old(admin).seed
            &&& final(admin).initialized == old(admin).initialized
            &&& final(admin).groups == old(admin).groups
            &&& final(admin).token_mint == old(admin).token_mint
        },
{
    if !admin.initialized {
        return Err(GroupError::NotInitialized);
    }
    if let Err(e) = utils::is_admin(admin, authority) {
        return Err(e);
    }
    if let Err(e) = utils::is_admin(admin, user) {
        return Err(e);
    }
    admin.remove_administrator(user);
    Ok(())
}

/// Clears a group's in-flight `electing` and `update` flags: the
/// administrator's escape hatch for a stalled election or reconfiguration.
pub fn reset_group(
    admin: &AdminAccount,
    admin_id: &Identity,
    authority: &Identity,
    group: &mut GroupAccount,
) -> (r: Result<(), GroupError>)
    ensures
        r is Ok <==> old(group).admin == *admin_id && holds_admin(*admin, *authority),
        r is Err ==> *final(group) == *old(group) && r == Err::<(), GroupError>(
            if old(group).admin != *admin_id {
                GroupError::MismatchedSigner
            } else {
                GroupError::OperationUnauthorized
            },
        ),
        r is Ok ==> *final(group) == (GroupAccount {
            electing: false,
            update: false,
            ..*old(group)
        }),
{
    if !crate::identity::id_eq(&group.admin, admin_id) {
        return Err(GroupError::MismatchedSigner);
    }
    if let Err(e) = utils::is_admin(admin, authority) {
        return Err(e);
    }
    group.electing = false;
    group.update = false;
    Ok(())
}

/// Creates a group under this registry, taking the registry's next group
/// ordinal.  The quorum rate starts at full participation.
pub fn create_group(
    admin: &mut AdminAccount,
    admin_id: &Identity,
    authority: &Identity,
    sponsor: &Identity,
    group_seed: u8,
    max_manager: u32,
) -> (r: Result<GroupAccount, GroupError>)
    requires
        old(admin).groups < u32::MAX,
    ensures
        r is Ok <==> old(admin).initialized && holds_admin(*old(admin), *authority),
        r is Err ==> *final(admin) == *old(admin) && r == Err::<GroupAccount, GroupError>(
            if !old(admin).initialized {
                GroupError::NotInitialized
            } else {
                GroupError::OperationUnauthorized
            },
        ),
        r matches Ok(g) ==> {
            &&& *final(admin) == (AdminAccount {
                groups: (old(admin).groups + 1) as u32,
                ..*old(admin)
            })
            &&& g == (GroupAccount {
                seed: group_seed,
                electing: false,
                freeze: false,
                rate: ParticipateRate { numerator: 100, denominator: 100 },
                update: false,
                max_manager,
                current_manager: 0,
                current_member: 0,
                proposals: 0,
                index: old(admin).groups,
                sponsor: *sponsor,
                admin: *admin_id,
            })
        },
{
    if !admin.initialized {
        return Err(GroupError::NotInitialized);
    }
    if let Err(e) = utils::is_admin(admin, authority) {
        return Err(e);
    }
    let group = GroupAccount {
        seed: group_seed,
        electing: false,
        freeze: false,
        rate: ParticipateRate::new(100, 100),
        update: false,
        max_manager,
        current_manager: 0,
        current_member: 0,
        proposals: 0,
        index: admin.groups,
        sponsor: *sponsor,
        admin: *admin_id,
    };
    admin.groups += 1;
    Ok(group)
}

/// When a freeze or thaw fails: the first guard it trips.
pub open spec fn freeze_error(
    a: AdminAccount,
    guard_failed: bool,
    guard_error: GroupError,
    authority: Identity,
) -> GroupError {
    if !a.initialized {
        GroupError::NotInitialized
    } else if guard_failed {
        guard_error
    } else {
        GroupError::OperationUnauthorized
    }
}

/// Freezes a group, blocking every membership and proposal mutation until
/// it is thawed.  Freezing an already-frozen group fails `AlreadyFrozen`
/// and changes nothing.
pub fn freeze_group(
    admin: &AdminAccount,
    admin_id: &Identity,
    authority: &Identity,
    group: &mut GroupAccount,
    group_id: &Identity,
) -> (r: Result<FreezeGroupEvent, GroupError>)
    ensures
        r is Ok <==> admin.initialized && !old(group).freeze && holds_admin(*admin, *authority),
        r is Err ==> *final(group) == *old(group) && r == Err::<FreezeGroupEvent, GroupError>(
            freeze_error(*admin, old(group).freeze, GroupError::AlreadyFrozen, *authority),
        ),
        r matches Ok(e) ==> {
            &&& *final(group) == (GroupAccount { freeze: true, ..*old(group) })
            &&& e.authority == *authority
            &&& e.admin == *admin_id
            &&& e.group == *group_id
            &&& e.label@ == "Frozen"@
        },
{
    if !admin.initialized {
        return Err(GroupError::NotInitialized);
    }
    if group.freeze {
        return Err(GroupError::AlreadyFrozen);
    }
    if let Err(e) = utils::is_admin(admin, authority) {
        return Err(e);
    }
    group.freeze = true;
    Ok(
        FreezeGroupEvent {
            authority: *authority,
            admin: *admin_id,
            group: *group_id,
            label: "Frozen".to_string(),
        },
    )
}

/// Thaws a frozen group.  Thawing a group that is not frozen fails
/// `GroupIsNotFrozen` and changes nothing.
pub fn thaw_group(
    admin: &AdminAccount,
    admin_id: &Identity,
    authority: &Identity,
    group: &mut GroupAccount,
    group_id: &Identity,
) -> (r: Result<ThawGroupEvent, GroupError>)
    ensures
        r is Ok <==> admin.initialized && old(group).freeze && holds_admin(*admin, *authority),
        r is Err ==> *final(group) == *old(group) && r == Err::<ThawGroupEvent, GroupError>(
            freeze_error(*admin, !old(group).freeze, GroupError::GroupIsNotFrozen, *authority),
        ),
        r matches Ok(e) ==> {
            &&& *final(group) == (GroupAccount { freeze: false, ..*old(group) })
            &&& e.authority == *authority
            &&& e.admin == *admin_id
            &&& e.group == *group_id
            &&& e.label@ == "Thawed"@
        },
{
    if !admin.initialized {
        return Err(GroupError::NotInitialized);
    }
    if !group.freeze {
        return Err(GroupError::GroupIsNotFrozen);
    }
    if let Err(e) = utils::is_admin(admin, authority) {
        return Err(e);
    }
    group.freeze = false;
    Ok(
        ThawGroupEvent {
            authority: *authority,
            admin: *admin_id,
            group: *group_id,
            label: "Thawed".to_string(),
        },
    )
}

/// Sets a group's quorum rate directly: the administrator override that
/// needs no vote.
pub fn upgrade_group(
    admin: &AdminAccount,
    admin_id: &Identity,
    authority: &Identity,
    group: &mut GroupAccount,
    group_id: &Identity,
    rate: ParticipateRate,
) -> (r: Result<UpgradeGroupEvent, GroupError>)
    ensures
        r is Ok <==> admin.initialized && holds_admin(*admin, *authority),
        r is Err ==> *final(group) == *old(group) && r == Err::<UpgradeGroupEvent, GroupError>(
            if !admin.initialized {
                GroupError::NotInitialized
            } else {
                GroupError::OperationUnauthorized
            },
        ),
        r matches Ok(e) ==> {
            &&& *final(group) == (GroupAccount { rate, ..*old(group) })
            &&& e.authority == *authority
            &&& e.admin == *admin_id
            &&& e.group == *group_id
            &&& e.rate == rate
            &&& e.label@ == "Upgraded"@
        },
{
    if !admin.initialized {
        return Err(GroupError::NotInitialized);
    }
    if let Err(e) = utils::is_admin(admin, authority) {
        return Err(e);
    }
    group.rate = rate;
    Ok(
        UpgradeGroupEvent {
            authority: *authority,
            admin: *admin_id,
            group: *group_id,
            rate,
            label: "Upgraded".to_string(),
        },
    )
}

} // verus!
