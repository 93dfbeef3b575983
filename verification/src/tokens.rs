//! Plain-value views of the environment's token accounts, and the token
//! movements this library asks the environment to perform.
//!
//! The asset service owns balances and executes movements; the library only
//! reads observations of balance records at call time and hands back fully
//! determined movement requests.

use vstd::prelude::*;
use crate::identity::Identity;

verus! {

/// What a token balance record showed when the caller observed it: the
/// asset it holds, the identity that controls it, and its balance.
#[derive(Clone, Copy, Debug, PartialEq, Eq)]
pub struct TokenAccountInfo {
    pub mint: Identity,
    pub owner: Identity,
    pub amount: u64,
}

/// A requested transfer of `amount` of the asset held by `from` to the
/// token account `to`, authorized by `authority`.
#[derive(Clone, Copy, Debug, PartialEq, Eq)]
pub struct TokenTransfer {
    pub from: Identity,
    pub to: Identity,
    pub authority: Identity,
    pub amount: u64,
}

/// A requested burn of `amount` of the asset `mint` out of the token
/// account `from`, authorized by `authority`.
#[derive(Clone, Copy, Debug, PartialEq, Eq)]
pub struct TokenBurn {
    pub mint: Identity,
    pub from: Identity,
    pub authority: Identity,
    pub amount: u64,
}

} // verus!
