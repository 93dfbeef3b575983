//! Group records: rank counters, freeze flag and quorum rate.

use vstd::prelude::*;
use crate::identity::Identity;

verus! {

/// The fraction of a group's users whose votes make a quorum.
#[derive(Clone, Copy, Debug, PartialEq, Eq, Structural)]
pub struct ParticipateRate {
    pub numerator: u8,
    pub denominator: u8,
}

/// What [`ParticipateRate::calc_number`] returns: `num` scaled by the rate,
/// rounded down.  A product too large for a `u64` collapses to zero and a
/// zero denominator saturates to `u64::MAX`.
pub open spec fn rate_applied(rate: ParticipateRate, num: u64) -> u64 {
    let prod: int = if num * rate.numerator > u64::MAX {
        0
    } else {
        num * rate.numerator
    };
    if rate.denominator == 0 {
        u64::MAX
    } else {
        (prod / (rate.denominator as int)) as u64
    }
}

impl ParticipateRate {
    pub fn new(numerator: u8, denominator: u8) -> (r: Self)
        ensures
            r.numerator == numerator,
            r.denominator == denominator,
    {
        Self { numerator, denominator }
    }

    /// Scales `num` by this rate.
    pub fn calc_number(&self, num: u64) -> (r: u64)
        ensures
            r == rate_applied(*self, num),
    {
        let prod: u64 = match num.checked_mul(self.numerator as u64) {
            Some(p) => p,
            None => 0,
        };
        match prod.checked_div(self.denominator as u64) {
            Some(q) => q,
            None => u64::MAX,
        }
    }
}

/// One governance group: aggregate counters, freeze flag and quorum rate.
///
/// `current_manager` and `current_member` count the live membership records
/// of each rank; `proposals` is the sequence number the next proposal takes;
/// `index` is the group's ordinal under its owning administrator registry.
/// While `freeze` is set, no membership or proposal mutation is permitted
/// until an administrator thaws the group.
#[derive(Clone, Copy, Debug, PartialEq, Eq)]
pub struct GroupAccount {
    pub seed: u8,
    pub electing: bool,
    pub freeze: bool,
    pub rate: ParticipateRate,
    pub update: bool,
    pub max_manager: u32,
    pub current_manager: u32,
    pub current_member: u32,
    pub proposals: u32,
    pub index: u32,
    pub sponsor: Identity,
    pub admin: Identity,
}

/// The number of votes that makes a quorum for `g`: the group's user count
/// scaled by its participation rate.
pub open spec fn quorum_threshold(g: GroupAccount) -> u64 {
    rate_applied(g.rate, (g.current_manager + g.current_member) as u64)
}

impl GroupAccount {
    /// The record store's cell size for a group.
    pub const LEN: usize = 1 + 1 + 1 + 2 + 1 + 2 + 4 + 4 + 4 + 4 + 4 + 32 + 32;

    pub fn manager_number(&self) -> (r: u64)
        ensures
            r == self.current_manager,
    {
        self.current_manager as u64
    }

    pub fn member_number(&self) -> (r: u64)
        ensures
            r == self.current_member,
    {
        self.current_member as u64
    }

    /// Managers and members together.
    pub fn total_user(&self) -> (r: u64)
        ensures
            r == self.current_manager + self.current_member,
    {
        self.manager_number() + self.member_number()
    }

    /// The quorum threshold of this group.
    pub fn hence(&self) -> (r: u64)
        ensures
            r == quorum_threshold(*self),
    {
        self.rate.calc_number(self.total_user())
    }
}

} // verus!
