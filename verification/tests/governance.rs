//! End-to-end scenarios over the proposal lifecycle and the group
//! invariants.

use user_group::{
    deposit_token, evaluate_quorum, exit_group, freeze_group, initialize, join_group,
    revoke_proposal, sign_proposal, submit_proposal, thaw_group, update_proposal, GroupAccount,
    GroupError, MemberAccount, ParticipateRate, Position, ProposalResult, ProposalStatus,
    ProposalType, SignType, TokenAccountInfo,
};

fn id(n: u8) -> [u8; 32] {
    let mut a = [0u8; 32];
    a[0] = n;
    a
}

fn member_of(owner: [u8; 32], group: [u8; 32], position: Position) -> MemberAccount {
    MemberAccount {
        position,
        in_promotion: false,
        in_withdraw: false,
        group,
        funder: id(99),
        owner,
    }
}

fn group_of_four() -> GroupAccount {
    GroupAccount {
        seed: 0,
        electing: false,
        freeze: false,
        rate: ParticipateRate { numerator: 100, denominator: 100 },
        update: false,
        max_manager: 2,
        current_manager: 1,
        current_member: 3,
        proposals: 0,
        index: 0,
        sponsor: id(98),
        admin: id(97),
    }
}

const HOUR: i64 = 3600;

#[test]
fn promote_passes_exactly_at_quorum() {
    // Full-participation quorum over four users: only the fourth vote
    // decides, and the counters move at that vote and not before.
    let group_id = id(1);
    let mut group = group_of_four();
    let manager = member_of(id(10), group_id, Position::Manager);
    let mut bene = member_of(id(11), group_id, Position::Member);
    let now = 1_000_000i64;
    let (mut proposal, _event) = submit_proposal(
        &mut group,
        &group_id,
        &manager,
        &id(20),
        &id(10),
        &id(11),
        &mut bene,
        &id(21),
        &id(22),
        ProposalType::Upgrade,
        10,
        now + 13 * HOUR,
        now,
        None,
    )
    .unwrap();
    assert!(bene.in_promotion);
    assert_eq!(group.proposals, 1);
    assert_eq!(proposal.status, ProposalStatus::Progressing);

    let mint = id(50);
    let token = TokenAccountInfo { mint, owner: id(0), amount: 1_000 };
    let voters = [id(10), id(12), id(13)];
    for (k, voter) in voters.iter().enumerate() {
        let voter_member = member_of(*voter, group_id, Position::Member);
        let out = sign_proposal(
            &mut proposal,
            &id(22),
            &mut group,
            &group_id,
            &voter_member,
            voter,
            &mint,
            &token,
            &id(51),
            &mut bene,
            &id(60 + k as u8),
            SignType::Agreed,
            now + 1,
            None,
        )
        .unwrap();
        assert_eq!(out.result, None);
        assert_eq!(proposal.status, ProposalStatus::Progressing);
        assert_eq!(group.current_manager, 1);
        assert_eq!(group.current_member, 3);
        assert_eq!(out.burn.amount, 10);
    }
    assert_eq!(proposal.positive, 3);

    let fourth = member_of(id(14), group_id, Position::Member);
    let out = sign_proposal(
        &mut proposal,
        &id(22),
        &mut group,
        &group_id,
        &fourth,
        &id(14),
        &mint,
        &token,
        &id(51),
        &mut bene,
        &id(63),
        SignType::Agreed,
        now + 2,
        None,
    )
    .unwrap();
    assert_eq!(out.result, Some(ProposalResult::Passed));
    assert_eq!(proposal.status, ProposalStatus::Passed { time: now + 2 });
    assert_eq!(group.current_manager, 2);
    assert_eq!(group.current_member, 2);
    assert_eq!(bene.position, Position::Manager);
    assert!(!bene.in_promotion);
    assert!(group.current_manager <= group.max_manager);
    assert!(out.execute_event.is_some());
    assert!(out.transfer.is_none());
}

#[test]
fn tie_vote_rejects() {
    // Two users, full participation: one vote each way reaches quorum and
    // the tie rejects the proposal, clearing the in-flight flag only.
    let group_id = id(1);
    let mut group = GroupAccount { current_member: 1, max_manager: 2, ..group_of_four() };
    let manager = member_of(id(10), group_id, Position::Manager);
    let mut bene = member_of(id(11), group_id, Position::Member);
    let now = 1_000_000i64;
    let (mut proposal, _event) = submit_proposal(
        &mut group,
        &group_id,
        &manager,
        &id(20),
        &id(10),
        &id(11),
        &mut bene,
        &id(21),
        &id(22),
        ProposalType::Upgrade,
        5,
        now + 13 * HOUR,
        now,
        None,
    )
    .unwrap();
    let mint = id(50);
    let token = TokenAccountInfo { mint, owner: id(0), amount: 1_000 };
    let first = member_of(id(10), group_id, Position::Manager);
    let out = sign_proposal(
        &mut proposal,
        &id(22),
        &mut group,
        &group_id,
        &first,
        &id(10),
        &mint,
        &token,
        &id(51),
        &mut bene,
        &id(60),
        SignType::Agreed,
        now + 1,
        None,
    )
    .unwrap();
    assert_eq!(out.result, None);
    let second = member_of(id(11), group_id, Position::Member);
    let out = sign_proposal(
        &mut proposal,
        &id(22),
        &mut group,
        &group_id,
        &second,
        &id(11),
        &mint,
        &token,
        &id(51),
        &mut bene,
        &id(61),
        SignType::Denied,
        now + 2,
        None,
    )
    .unwrap();
    assert_eq!(out.result, Some(ProposalResult::Rejected));
    assert_eq!(proposal.status, ProposalStatus::Rejected { time: now + 2 });
    assert_eq!(proposal.positive, 1);
    assert_eq!(proposal.negative, 1);
    assert!(!bene.in_promotion);
    assert_eq!(bene.position, Position::Member);
    assert_eq!(group.current_manager, 1);
    assert_eq!(group.current_member, 1);
}

#[test]
fn submit_below_deadline_floor_rejected() {
    // A deadline an hour away is under the twelve-hour floor: the
    // submission fails and no record changes.
    let group_id = id(1);
    let mut group = group_of_four();
    let manager = member_of(id(10), group_id, Position::Manager);
    let mut bene = member_of(id(11), group_id, Position::Member);
    let now = 1_000_000i64;
    let r = submit_proposal(
        &mut group,
        &group_id,
        &manager,
        &id(20),
        &id(10),
        &id(11),
        &mut bene,
        &id(21),
        &id(22),
        ProposalType::Upgrade,
        10,
        now + HOUR,
        now,
        None,
    );
    assert_eq!(r, Err(GroupError::NotEnoughTimeElapse));
    assert_eq!(group, group_of_four());
    assert_eq!(bene, member_of(id(11), group_id, Position::Member));
}

#[test]
fn extend_deadline_twice() {
    // The first extension moves the proposal to `Updated`; the second
    // fails `AlreadyUpdated`.
    let group_id = id(1);
    let mut group = group_of_four();
    let manager = member_of(id(10), group_id, Position::Manager);
    let mut bene = member_of(id(11), group_id, Position::Member);
    let now = 1_000_000i64;
    let (mut proposal, _event) = submit_proposal(
        &mut group,
        &group_id,
        &manager,
        &id(20),
        &id(10),
        &id(11),
        &mut bene,
        &id(21),
        &id(22),
        ProposalType::Upgrade,
        10,
        now + 13 * HOUR,
        now,
        None,
    )
    .unwrap();
    let r = update_proposal(
        &mut proposal,
        &id(22),
        &group,
        &group_id,
        &id(10),
        now + 20 * HOUR,
        now + 1,
    );
    assert!(r.is_ok());
    assert_eq!(proposal.status, ProposalStatus::Updated { time: now + 1 });
    assert_eq!(proposal.deadline, now + 20 * HOUR);
    let r = update_proposal(
        &mut proposal,
        &id(22),
        &group,
        &group_id,
        &id(10),
        now + 30 * HOUR,
        now + 2,
    );
    assert_eq!(r, Err(GroupError::AlreadyUpdated));
    assert_eq!(proposal.deadline, now + 20 * HOUR);
}

#[test]
fn revoke_after_window_rejected() {
    // One second past the revocation window the revoke fails, although
    // the voting deadline is still far ahead.
    let group_id = id(1);
    let mut group = group_of_four();
    let manager = member_of(id(10), group_id, Position::Manager);
    let mut bene = member_of(id(11), group_id, Position::Member);
    let now = 1_000_000i64;
    let (proposal, _event) = submit_proposal(
        &mut group,
        &group_id,
        &manager,
        &id(20),
        &id(10),
        &id(11),
        &mut bene,
        &id(21),
        &id(22),
        ProposalType::Upgrade,
        10,
        now + 13 * HOUR,
        now,
        None,
    )
    .unwrap();
    assert_eq!(proposal.revoke_timeout, now + 2 * HOUR);
    let late = proposal.revoke_timeout + 1;
    assert!(late < proposal.deadline);
    let r = revoke_proposal(&proposal, &mut group, &mut bene, &id(10), &id(11), &id(21), late);
    assert_eq!(r, Err(GroupError::RevokeOutdated));
    assert!(bene.in_promotion);
    let r = revoke_proposal(
        &proposal,
        &mut group,
        &mut bene,
        &id(10),
        &id(11),
        &id(21),
        proposal.revoke_timeout,
    );
    assert!(r.is_ok());
    assert!(!bene.in_promotion);
}

#[test]
fn freeze_is_idempotent_failure() {
    // Freezing a frozen group fails `AlreadyFrozen` without change; the
    // same holds for thawing an unfrozen one.
    let admin_id = id(2);
    let authority = id(3);
    let admin = initialize(7, &id(4), &authority);
    let group_id = id(1);
    let mut group = GroupAccount { admin: admin_id, ..group_of_four() };
    assert!(freeze_group(&admin, &admin_id, &authority, &mut group, &group_id).is_ok());
    assert!(group.freeze);
    let frozen = group;
    let r = freeze_group(&admin, &admin_id, &authority, &mut group, &group_id);
    assert_eq!(r, Err(GroupError::AlreadyFrozen));
    assert_eq!(group, frozen);
    assert!(thaw_group(&admin, &admin_id, &authority, &mut group, &group_id).is_ok());
    assert!(!group.freeze);
    let thawed = group;
    let r = thaw_group(&admin, &admin_id, &authority, &mut group, &group_id);
    assert_eq!(r, Err(GroupError::GroupIsNotFrozen));
    assert_eq!(group, thawed);
}

#[test]
fn bootstrap_join_makes_manager() {
    // The first joiner of an empty group becomes its manager; the second
    // joins at the member rank.
    let group_id = id(1);
    let mut group = GroupAccount { current_manager: 0, current_member: 0, ..group_of_four() };
    let now = 1_000_000i64;
    let (first, event) =
        join_group(&mut group, &group_id, &id(10), &id(30), &id(20), now).unwrap();
    assert_eq!(first.position, Position::Manager);
    assert_eq!(group.current_manager, 1);
    assert_eq!(group.current_member, 0);
    assert_eq!(event.label, "JoinGroup");
    let (second, _event) =
        join_group(&mut group, &group_id, &id(11), &id(30), &id(21), now).unwrap();
    assert_eq!(second.position, Position::Member);
    assert_eq!(group.current_member, 1);
}

#[test]
fn exit_lowers_matching_counter() {
    let group_id = id(1);
    let mut group = group_of_four();
    let m = MemberAccount { funder: id(30), ..member_of(id(10), group_id, Position::Manager) };
    let event =
        exit_group(&mut group, &group_id, &m, &id(20), &id(30), &id(10), 5).unwrap();
    assert_eq!(group.current_manager, 0);
    assert_eq!(group.current_member, 3);
    assert_eq!(event.label, "ExitGroup");
}

#[test]
fn quorum_rule_exact_values() {
    assert_eq!(evaluate_quorum(2, 1, 3), Some(ProposalResult::Passed));
    assert_eq!(evaluate_quorum(1, 2, 3), Some(ProposalResult::Rejected));
    assert_eq!(evaluate_quorum(1, 1, 3), None);
    assert_eq!(evaluate_quorum(2, 2, 4), Some(ProposalResult::Rejected));
    assert_eq!(evaluate_quorum(0, 0, 0), Some(ProposalResult::Rejected));
}

#[test]
fn quorum_threshold_formula() {
    let mut group = group_of_four();
    assert_eq!(group.total_user(), 4);
    assert_eq!(group.hence(), 4);
    group.rate = ParticipateRate::new(50, 100);
    assert_eq!(group.hence(), 2);
    group.rate = ParticipateRate::new(75, 100);
    assert_eq!(group.hence(), 3);
}

#[test]
fn rate_saturation_edges() {
    // A zero denominator saturates to the maximum; an overflowing product
    // collapses to zero.
    assert_eq!(ParticipateRate::new(1, 0).calc_number(5), u64::MAX);
    assert_eq!(ParticipateRate::new(255, 1).calc_number(u64::MAX), 0);
    assert_eq!(ParticipateRate::new(0, 0).calc_number(0), u64::MAX);
    assert_eq!(ParticipateRate::new(100, 100).calc_number(4), 4);
}

#[test]
fn withdraw_pass_requests_transfer() {
    // A passed withdrawal clears the flag and requests the recorded
    // transfer out of the observed vault.
    let group_id = id(1);
    let mut group = GroupAccount {
        current_member: 1,
        rate: ParticipateRate::new(100, 100),
        ..group_of_four()
    };
    let manager = member_of(id(10), group_id, Position::Manager);
    let mut bene = member_of(id(11), group_id, Position::Member);
    let now = 1_000_000i64;
    let asset = id(40);
    let receiver = id(41);
    let vault = TokenAccountInfo { mint: asset, owner: group_id, amount: 5_000 };
    let (mut proposal, _event) = submit_proposal(
        &mut group,
        &group_id,
        &manager,
        &id(20),
        &id(10),
        &id(11),
        &mut bene,
        &id(21),
        &id(22),
        ProposalType::Withdraw { mint: asset, receiver, amount: 2_000 },
        10,
        now + 13 * HOUR,
        now,
        Some(&vault),
    )
    .unwrap();
    assert!(bene.in_withdraw);
    let mint = id(50);
    let token = TokenAccountInfo { mint, owner: id(0), amount: 1_000 };
    let wa = user_group::WithdrawAccounts { vault, vault_id: id(42), receiver_id: receiver };
    let voters = [id(10), id(11)];
    let mut last = None;
    for (k, voter) in voters.iter().enumerate() {
        let voter_member = member_of(*voter, group_id, Position::Member);
        last = Some(
            sign_proposal(
                &mut proposal,
                &id(22),
                &mut group,
                &group_id,
                &voter_member,
                voter,
                &mint,
                &token,
                &id(51),
                &mut bene,
                &id(60 + k as u8),
                SignType::Agreed,
                now + 1,
                Some(wa),
            )
            .unwrap(),
        );
    }
    let out = last.unwrap();
    assert_eq!(out.result, Some(ProposalResult::Passed));
    let transfer = out.transfer.unwrap();
    assert_eq!(transfer.from, id(42));
    assert_eq!(transfer.to, receiver);
    assert_eq!(transfer.authority, group_id);
    assert_eq!(transfer.amount, 2_000);
    assert!(!bene.in_withdraw);
}

#[test]
fn rejected_reconfiguration_keeps_update_flag() {
    // The deliberate asymmetry: a rejected reconfiguration leaves the
    // group's `update` flag set; only a passed one clears it.
    let group_id = id(1);
    let mut group = GroupAccount {
        current_manager: 2,
        current_member: 0,
        max_manager: 2,
        ..group_of_four()
    };
    let manager = member_of(id(10), group_id, Position::Manager);
    let mut bene = member_of(id(11), group_id, Position::Manager);
    let now = 1_000_000i64;
    let (mut proposal, _event) = submit_proposal(
        &mut group,
        &group_id,
        &manager,
        &id(20),
        &id(10),
        &id(11),
        &mut bene,
        &id(21),
        &id(22),
        ProposalType::UpdateGroup { max_manager: 5 },
        10,
        now + 13 * HOUR,
        now,
        None,
    )
    .unwrap();
    assert!(group.update);
    let mint = id(50);
    let token = TokenAccountInfo { mint, owner: id(0), amount: 1_000 };
    for (k, voter) in [id(10), id(11)].iter().enumerate() {
        let voter_member = member_of(*voter, group_id, Position::Manager);
        sign_proposal(
            &mut proposal,
            &id(22),
            &mut group,
            &group_id,
            &voter_member,
            voter,
            &mint,
            &token,
            &id(51),
            &mut bene,
            &id(60 + k as u8),
            SignType::Denied,
            now + 1,
            None,
        )
        .unwrap();
    }
    assert_eq!(proposal.status, ProposalStatus::Rejected { time: now + 1 });
    assert!(group.update);
    assert_eq!(group.max_manager, 2);

    // The rejection is final: a further favorable vote cannot re-decide
    // the proposal and flip it to Passed.
    let third = member_of(id(12), group_id, Position::Member);
    let r = sign_proposal(
        &mut proposal,
        &id(22),
        &mut group,
        &group_id,
        &third,
        &id(12),
        &mint,
        &token,
        &id(51),
        &mut bene,
        &id(62),
        SignType::Agreed,
        now + 2,
        None,
    );
    assert_eq!(r.unwrap_err(), GroupError::AlreadyOutdated);
    assert_eq!(proposal.status, ProposalStatus::Rejected { time: now + 1 });
    assert_eq!(group.max_manager, 2);
    assert!(group.update);
}

#[test]
fn deposit_token_requests_transfer() {
    let group_id = id(1);
    let accounts = user_group::DepositToken {
        authority: id(10),
        mint: id(40),
        member: member_of(id(10), group_id, Position::Member),
        token: TokenAccountInfo { mint: id(40), owner: id(10), amount: 700 },
        token_id: id(41),
        group: group_of_four(),
        group_id,
        vault_id: id(42),
    };
    let (transfer, event) = deposit_token(&accounts, 500).unwrap();
    assert_eq!(transfer, accounts.as_token_transfer_ctx(500));
    assert_eq!(transfer.from, id(41));
    assert_eq!(transfer.to, id(42));
    assert_eq!(transfer.amount, 500);
    assert_eq!(event.label, "DepositToken");
}
