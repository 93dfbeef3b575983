//! Vote records: one caller's vote on one proposal, immutable once written.

use vstd::prelude::*;
use crate::identity::Identity;

verus! {

/// The two ways to vote.
#[derive(Clone, Copy, Debug, PartialEq, Eq, Structural)]
pub enum SignType {
    Agreed,
    Denied,
}

/// One cast vote: who voted, when, on what, which way, and the stake that
/// was burned to cast it.  The record store keys these by (voter, proposal),
/// so a voter cannot cast twice.
#[derive(Clone, Copy, Debug, PartialEq, Eq)]
pub struct SignatureAccount {
    pub signer: Identity,
    pub created_at: i64,
    pub amount: u64,
    pub proposal: Identity,
    pub sign_type: SignType,
}

impl SignatureAccount {
    pub fn is_agreed(&self) -> (r: bool)
        ensures
            r == (self.sign_type is Agreed),
    {
        if let SignType::Agreed = self.sign_type {
            true
        } else {
            false
        }
    }

    pub fn is_denied(&self) -> (r: bool)
        ensures
            r == (self.sign_type is Denied),
    {
        !self.is_agreed()
    }
}

} // verus!
