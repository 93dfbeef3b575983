//! The administrator registry: a fixed-capacity set of super-users.

use vstd::prelude::*;
use crate::identity::{id_eq, zero_id, zero_identity, Identity};

verus! {

/// How many administrators a registry can hold.
pub const ADMIN_CAPACITY: usize = 10;

/// The registry of administrators entitled to create, freeze and
/// reconfigure groups, plus the count of groups created under it.
///
/// `administrators` is an arena: slots `0 .. current` are occupied, and
/// removal swaps the last occupied slot into the freed position, so
/// enumeration order is not preserved.
#[derive(Clone, Copy, Debug, PartialEq, Eq)]
pub struct AdminAccount {
    pub seed: u8,
    pub current: u8,
    pub initialized: bool,
    pub groups: u32,
    pub token_mint: Identity,
    pub administrators: [Identity; 10],
}

impl AdminAccount {
    /// The record store's cell size for a registry.
    pub const LEN: usize = 1 + 1 + 1 + 1 + 4 + 32 + 320;

    /// Well-formedness: the occupied count never exceeds the capacity.
    pub open spec fn wf(self) -> bool {
        self.current <= 10
    }
}

/// True when `user` occurs anywhere in the slot array.  Matches the
/// membership test the registry actually performs, which scans every slot,
/// occupied or not.
pub open spec fn holds_admin(a: AdminAccount, user: Identity) -> bool {
    exists|i: int| 0 <= i < 10 && a.administrators@[i] == user
}

/// Relates the slot arrays before and after removing `user`: the last
/// occupied slot's identity moves into the first slot holding `user`, and
/// the vacated last slot is blanked — so removal is not order-preserving,
/// and the removed identity leaves the array even when it sat in the last
/// occupied slot itself.
pub open spec fn swap_removed(before: AdminAccount, after: AdminAccount, user: Identity) -> bool {
    exists|pos: int|
        {
            &&& 0 <= pos < 10
            &&& #[trigger] before.administrators@[pos] == user
            &&& forall|j: int| 0 <= j < pos ==> before.administrators@[j] != user
            &&& after.administrators@ == before.administrators@.update(
                pos,
                before.administrators@[before.current - 1],
            ).update(before.current - 1, zero_identity())
        }
}

impl AdminAccount {
    /// Whether `user` is an administrator of this registry.
    pub fn is_admin(&self, user: &Identity) -> (r: bool)
        ensures
            r == holds_admin(*self, *user),
    {
        let mut i: usize = 0;
        while i < 10
            invariant
                0 <= i <= 10,
                forall|j: int| 0 <= j < i ==> self.administrators@[j] != *user,
            decreases 10 - i,
        {
            if id_eq(&self.administrators[i], user) {
                return true;
            }
            i += 1;
        }
        false
    }

    /// Whether every slot is occupied.
    pub fn is_full(&self) -> (r: bool)
        ensures
            r == (self.current == 10),
    {
        self.current == 10
    }

    /// Whether removing one administrator would empty the registry.
    pub fn will_be_empty(&self) -> (r: bool)
        ensures
            r == (self.current == 1),
    {
        self.current == 1
    }

    /// Appends `user` in the first unoccupied slot.
    pub fn add_administrator(&mut self, user: &Identity)
        requires
            old(self).current < 10,
        ensures
            final(self).administrators@ == old(self).administrators@.update(
                old(self).current as int,
                *user,
            ),
            final(self).current == old(self).current + 1,
            final(self).seed == old(self).seed,
            final(self).initialized == old(self).initialized,
            final(self).groups == old(self).groups,
            final(self).token_mint == old(self).token_mint,
    {
        self.administrators[self.current as usize] = *user;
        self.current += 1;
    }

    /// The index of the last occupied slot.
    pub fn last(&self) -> (r: usize)
        requires
            self.current >= 1,
        ensures
            r == self.current - 1,
    {
        self.current as usize - 1
    }

    /// Removes `user` by moving the last occupied slot's identity into its
    /// position and blanking the vacated last slot, so enumeration order is
    /// not preserved; a registry that does not hold `user` is left
    /// unchanged.
    pub fn remove_administrator(&mut self, user: &Identity)
        requires
            old(self).wf(),
            holds_admin(*old(self), *user) ==> old(self).current >= 1,
        ensures
            final(self).wf(),
            !holds_admin(*old(self), *user) ==> *final(self) == *old(self),
            holds_admin(*old(self), *user) ==> swap_removed(*old(self), *final(self), *user),
            holds_admin(*old(self), *user) ==> final(self).current == old(self).current - 1,
            final(self).seed == old(self).seed,
            final(self).initialized == old(self).initialized,
            final(self).groups == old(self).groups,
            final(self).token_mint == old(self).token_mint,
    {
        let mut i: usize = 0;
        while i < 10
            invariant
                *self == *old(self),
                old(self).wf(),
                holds_admin(*old(self), *user) ==> old(self).current >= 1,
                0 <= i <= 10,
                forall|j: int| 0 <= j < i ==> self.administrators@[j] != *user,
            decreases 10 - i,
        {
            if id_eq(&self.administrators[i], user) {
                proof {
                    assert(old(self).administrators@[i as int] == *user);
                    assert(holds_admin(*old(self), *user));
                }
                let last = self.last();
                let moved = self.administrators[last];
                self.administrators[i] = moved;
                self.administrators[last] = zero_id();
                self.current -= 1;
                return;
            }
            i += 1;
        }
    }
}

} // verus!
