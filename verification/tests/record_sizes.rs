//! The record-store cell sizes match the in-memory record sizes.

use std::mem::size_of;
use user_group::{AdminAccount, GroupAccount, MemberAccount, ProposalAccount};

#[test]
fn test_admin_size() {
    assert_eq!(size_of::<AdminAccount>(), AdminAccount::LEN);
}

#[test]
fn test_group_size() {
    assert_eq!(size_of::<GroupAccount>(), GroupAccount::LEN);
}

#[test]
fn test_member_size() {
    assert_eq!(MemberAccount::LEN, size_of::<MemberAccount>());
}

#[test]
fn test_proposal_size() {
    assert_eq!(ProposalAccount::LEN, size_of::<ProposalAccount>());
}
