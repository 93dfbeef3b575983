//! Per-user membership records.

use vstd::prelude::*;
use crate::identity::Identity;

verus! {

/// The rank a member holds within its group.
#[derive(Clone, Copy, Debug, PartialEq, Eq, Structural)]
pub enum Position {
    Member,
    Manager,
}

impl Default for Position {
    /// New members start at the lower rank.
    fn default() -> (r: Self)
        ensures
            r == Position::Member,
    {
        Position::Member
    }
}

impl Position {
    pub fn is_manager(&self) -> (r: bool)
        ensures
            r == (*self is Manager),
    {
        !self.is_member()
    }

    pub fn is_member(&self) -> (r: bool)
        ensures
            r == (*self is Member),
    {
        if let Self::Member = self {
            true
        } else {
            false
        }
    }
}

/// One user's record of rank and in-flight-proposal flags within one group.
///
/// At most one promotion-class proposal (`in_promotion`) and one withdrawal
/// (`in_withdraw`) may be outstanding per member at a time; submission sets
/// the flag and decision, revocation or an explicit reset clears it.
#[derive(Clone, Copy, Debug, PartialEq, Eq)]
pub struct MemberAccount {
    pub position: Position,
    pub in_promotion: bool,
    pub in_withdraw: bool,
    pub group: Identity,
    pub funder: Identity,
    pub owner: Identity,
}

impl MemberAccount {
    /// The record store's cell size for a membership record.
    pub const LEN: usize = 1 + 1 + 1 + 32 + 32 + 32;
}

} // verus!
