//! Round trips of the proposal record layout: serializing then
//! deserializing reproduces an identical record for every kind and every
//! status.

use user_group::codec::{proposal_from_bytes, proposal_to_bytes};
use user_group::{ProposalAccount, ProposalStatus, ProposalType};

fn filled(id: u8) -> [u8; 32] {
    let mut a = [0u8; 32];
    a[0] = id;
    a[31] = id.wrapping_add(1);
    a
}

#[test]
fn test_upgrade_progressing() {
    let proposal = ProposalAccount {
        proposal_type: ProposalType::Upgrade,
        status: ProposalStatus::Progressing,
        ..ProposalAccount::default()
    };
    let mut data = vec![0u8; ProposalAccount::LEN];
    assert_eq!(data.len(), ProposalAccount::LEN);
    let encoded = proposal_to_bytes(&proposal);
    assert!(encoded.len() <= data.len());
    data[..encoded.len()].copy_from_slice(&encoded);
    let res: ProposalAccount = proposal_from_bytes(&data).unwrap();
    assert_eq!(proposal, res);
}

#[test]
fn test_upgrade_passed() {
    let proposal = ProposalAccount {
        proposal_type: ProposalType::Upgrade,
        status: ProposalStatus::Passed { time: 1642650232 },
        ..ProposalAccount::default()
    };
    let mut data = vec![0u8; ProposalAccount::LEN];
    assert_eq!(data.len(), ProposalAccount::LEN);
    let encoded = proposal_to_bytes(&proposal);
    assert!(encoded.len() <= data.len());
    data[..encoded.len()].copy_from_slice(&encoded);
    let res: ProposalAccount = proposal_from_bytes(&data).unwrap();
    assert_eq!(proposal, res);
}

#[test]
fn test_upgrade_updated() {
    let proposal = ProposalAccount {
        proposal_type: ProposalType::Upgrade,
        status: ProposalStatus::Updated { time: 1642650232 },
        ..ProposalAccount::default()
    };
    let mut data = vec![0u8; ProposalAccount::LEN];
    assert_eq!(data.len(), ProposalAccount::LEN);
    let encoded = proposal_to_bytes(&proposal);
    assert!(encoded.len() <= data.len());
    data[..encoded.len()].copy_from_slice(&encoded);
    let res: ProposalAccount = proposal_from_bytes(&data).unwrap();
    assert_eq!(proposal, res);
}

#[test]
fn test_downgrade_progressing() {
    let proposal = ProposalAccount {
        proposal_type: ProposalType::Downgrade,
        status: ProposalStatus::Progressing,
        ..ProposalAccount::default()
    };
    let mut data = vec![0u8; ProposalAccount::LEN];
    assert_eq!(data.len(), ProposalAccount::LEN);
    let encoded = proposal_to_bytes(&proposal);
    assert!(encoded.len() <= data.len());
    data[..encoded.len()].copy_from_slice(&encoded);
    let res: ProposalAccount = proposal_from_bytes(&data).unwrap();
    assert_eq!(proposal, res);
}

#[test]
fn test_downgrade_passed() {
    let proposal = ProposalAccount {
        proposal_type: ProposalType::Downgrade,
        status: ProposalStatus::Passed { time: 1642650232 },
        ..ProposalAccount::default()
    };
    let mut data = vec![0u8; ProposalAccount::LEN];
    assert_eq!(data.len(), ProposalAccount::LEN);
    let encoded = proposal_to_bytes(&proposal);
    assert!(encoded.len() <= data.len());
    data[..encoded.len()].copy_from_slice(&encoded);
    let res: ProposalAccount = proposal_from_bytes(&data).unwrap();
    assert_eq!(proposal, res);
}

#[test]
fn test_downgrade_updated() {
    let proposal = ProposalAccount {
        proposal_type: ProposalType::Upgrade,
        status: ProposalStatus::Updated { time: 1642650232 },
        ..ProposalAccount::default()
    };
    let mut data = vec![0u8; ProposalAccount::LEN];
    assert_eq!(data.len(), ProposalAccount::LEN);
    let encoded = proposal_to_bytes(&proposal);
    assert!(encoded.len() <= data.len());
    data[..encoded.len()].copy_from_slice(&encoded);
    let res: ProposalAccount = proposal_from_bytes(&data).unwrap();
    assert_eq!(proposal, res);
}

#[test]
fn test_update_group_progressing() {
    let proposal = ProposalAccount {
        proposal_type: ProposalType::UpdateGroup { max_manager: 10 },
        status: ProposalStatus::Progressing,
        ..ProposalAccount::default()
    };
    let mut data = vec![0u8; ProposalAccount::LEN];
    assert_eq!(data.len(), ProposalAccount::LEN);
    let encoded = proposal_to_bytes(&proposal);
    assert!(encoded.len() <= data.len());
    data[..encoded.len()].copy_from_slice(&encoded);
    let res: ProposalAccount = proposal_from_bytes(&data).unwrap();
    assert_eq!(proposal, res);
}

#[test]
fn test_update_group_passed() {
    let proposal = ProposalAccount {
        proposal_type: ProposalType::UpdateGroup { max_manager: 10 },
        status: ProposalStatus::Passed { time: 1642650232 },
        ..ProposalAccount::default()
    };
    let mut data = vec![0u8; ProposalAccount::LEN];
    assert_eq!(data.len(), ProposalAccount::LEN);
    let encoded = proposal_to_bytes(&proposal);
    assert!(encoded.len() <= data.len());
    data[..encoded.len()].copy_from_slice(&encoded);
    let res: ProposalAccount = proposal_from_bytes(&data).unwrap();
    assert_eq!(proposal, res);
}

#[test]
fn test_update_group_updated() {
    let proposal = ProposalAccount {
        proposal_type: ProposalType::UpdateGroup { max_manager: 10 },
        status: ProposalStatus::Updated { time: 1642650232 },
        ..ProposalAccount::default()
    };
    let mut data = vec![0u8; ProposalAccount::LEN];
    assert_eq!(data.len(), ProposalAccount::LEN);
    let encoded = proposal_to_bytes(&proposal);
    assert!(encoded.len() <= data.len());
    data[..encoded.len()].copy_from_slice(&encoded);
    let res: ProposalAccount = proposal_from_bytes(&data).unwrap();
    assert_eq!(proposal, res);
}

#[test]
fn test_reelection_progressing() {
    let proposal = ProposalAccount {
        proposal_type: ProposalType::ReElection,
        status: ProposalStatus::Progressing,
        ..ProposalAccount::default()
    };
    let mut data = vec![0u8; ProposalAccount::LEN];
    assert_eq!(data.len(), ProposalAccount::LEN);
    let encoded = proposal_to_bytes(&proposal);
    assert!(encoded.len() <= data.len());
    data[..encoded.len()].copy_from_slice(&encoded);
    let res: ProposalAccount = proposal_from_bytes(&data).unwrap();
    assert_eq!(proposal, res);
}

#[test]
fn test_reelection_passed() {
    let proposal = ProposalAccount {
        proposal_type: ProposalType::ReElection,
        status: ProposalStatus::Passed { time: 1642650232 },
        ..ProposalAccount::default()
    };
    let mut data = vec![0u8; ProposalAccount::LEN];
    assert_eq!(data.len(), ProposalAccount::LEN);
    let encoded = proposal_to_bytes(&proposal);
    assert!(encoded.len() <= data.len());
    data[..encoded.len()].copy_from_slice(&encoded);
    let res: ProposalAccount = proposal_from_bytes(&data).unwrap();
    assert_eq!(proposal, res);
}

#[test]
fn test_reelection_updated() {
    let proposal = ProposalAccount {
        proposal_type: ProposalType::ReElection,
        status: ProposalStatus::Updated { time: 1642650232 },
        ..ProposalAccount::default()
    };
    let mut data = vec![0u8; ProposalAccount::LEN];
    assert_eq!(data.len(), ProposalAccount::LEN);
    let encoded = proposal_to_bytes(&proposal);
    assert!(encoded.len() <= data.len());
    data[..encoded.len()].copy_from_slice(&encoded);
    let res: ProposalAccount = proposal_from_bytes(&data).unwrap();
    assert_eq!(proposal, res);
}

#[test]
fn test_withdraw_progressing() {
    let proposal = ProposalAccount {
        proposal_type: ProposalType::Withdraw {
            mint: [0u8; 32],
            receiver: [0u8; 32],
            amount: 1000000,
        },
        status: ProposalStatus::Progressing,
        ..ProposalAccount::default()
    };
    let mut data = vec![0u8; ProposalAccount::LEN];
    assert_eq!(data.len(), ProposalAccount::LEN);
    let encoded = proposal_to_bytes(&proposal);
    assert!(encoded.len() <= data.len());
    data[..encoded.len()].copy_from_slice(&encoded);
    let res: ProposalAccount = proposal_from_bytes(&data).unwrap();
    assert_eq!(proposal, res);
}

#[test]
fn test_withdraw_passed() {
    let proposal = ProposalAccount {
        proposal_type: ProposalType::Withdraw {
            mint: [0u8; 32],
            receiver: [0u8; 32],
            amount: 1000000,
        },
        status: ProposalStatus::Passed { time: 1642650232 },
        ..ProposalAccount::default()
    };
    let mut data = vec![0u8; ProposalAccount::LEN];
    assert_eq!(data.len(), ProposalAccount::LEN);
    let encoded = proposal_to_bytes(&proposal);
    assert!(encoded.len() <= data.len());
    data[..encoded.len()].copy_from_slice(&encoded);
    let res: ProposalAccount = proposal_from_bytes(&data).unwrap();
    assert_eq!(proposal, res);
}

#[test]
fn test_withdraw_updated() {
    let proposal = ProposalAccount {
        proposal_type: ProposalType::Withdraw {
            mint: [0u8; 32],
            receiver: [0u8; 32],
            amount: 1000000,
        },
        status: ProposalStatus::Updated { time: 1642650232 },
        ..ProposalAccount::default()
    };
    let mut data = vec![0u8; ProposalAccount::LEN];
    assert_eq!(data.len(), ProposalAccount::LEN);
    let encoded = proposal_to_bytes(&proposal);
    assert!(encoded.len() <= data.len());
    data[..encoded.len()].copy_from_slice(&encoded);
    let res: ProposalAccount = proposal_from_bytes(&data).unwrap();
    assert_eq!(proposal, res);
}

#[test]
fn test_rejected_every_kind() {
    let kinds = vec![
        ProposalType::Upgrade,
        ProposalType::Downgrade,
        ProposalType::UpdateGroup { max_manager: 7 },
        ProposalType::ReElection,
        ProposalType::Withdraw { mint: filled(5), receiver: filled(6), amount: 42 },
    ];
    for kind in kinds {
        let proposal = ProposalAccount {
            proposal_type: kind,
            status: ProposalStatus::Rejected { time: 1642650232 },
            ..ProposalAccount::default()
        };
        let encoded = proposal_to_bytes(&proposal);
        let res = proposal_from_bytes(&encoded).unwrap();
        assert_eq!(proposal, res);
    }
}

#[test]
fn test_fully_populated_record_round_trip() {
    let proposal = ProposalAccount {
        submitter: filled(1),
        beneficiary: filled(2),
        bene_member: filled(3),
        group: filled(4),
        positive: 7,
        negative: 3,
        limit: 10,
        deadline: 1642650232,
        revoke_timeout: -7200,
        close_timeout: i64::MIN,
        proposal_type: ProposalType::Withdraw {
            mint: filled(5),
            receiver: filled(6),
            amount: u64::MAX,
        },
        status: ProposalStatus::Passed { time: -1 },
    };
    let encoded = proposal_to_bytes(&proposal);
    let res = proposal_from_bytes(&encoded).unwrap();
    assert_eq!(proposal, res);
}

#[test]
fn test_layout_exact_bytes() {
    // The wire layout: a 168-byte fixed head, then each enum as a
    // one-byte variant tag followed by its little-endian payload.
    let proposal = ProposalAccount {
        positive: 2,
        negative: 1,
        limit: 10,
        deadline: 256,
        proposal_type: ProposalType::UpdateGroup { max_manager: 10 },
        status: ProposalStatus::Passed { time: 1642650232 },
        ..ProposalAccount::default()
    };
    let encoded = proposal_to_bytes(&proposal);
    assert_eq!(encoded.len(), 168 + 5 + 9);
    assert_eq!(&encoded[..128], &[0u8; 128][..]);
    assert_eq!(&encoded[128..132], &[2, 0, 0, 0]);
    assert_eq!(&encoded[132..136], &[1, 0, 0, 0]);
    assert_eq!(&encoded[136..144], &[10, 0, 0, 0, 0, 0, 0, 0]);
    assert_eq!(&encoded[144..152], &[0, 1, 0, 0, 0, 0, 0, 0]);
    assert_eq!(encoded[168], 2);
    assert_eq!(&encoded[169..173], &[10, 0, 0, 0]);
    assert_eq!(encoded[173], 1);
    assert_eq!(&encoded[174..182], &[120, 218, 232, 97, 0, 0, 0, 0]);

    // A negative timestamp is stored as its two's-complement pattern.
    let late = ProposalAccount {
        status: ProposalStatus::Rejected { time: -2 },
        ..ProposalAccount::default()
    };
    let encoded = proposal_to_bytes(&late);
    assert_eq!(encoded[168], 0);
    assert_eq!(encoded[169], 2);
    assert_eq!(&encoded[170..178], &[254, 255, 255, 255, 255, 255, 255, 255]);
}

#[test]
fn test_decode_rejects_bad_input() {
    assert_eq!(proposal_from_bytes(&[]), None);
    assert_eq!(proposal_from_bytes(&[0u8; 168]), None);
    let mut bad_kind_tag = vec![0u8; ProposalAccount::LEN];
    bad_kind_tag[168] = 9;
    assert_eq!(proposal_from_bytes(&bad_kind_tag), None);
    let mut bad_status_tag = vec![0u8; ProposalAccount::LEN];
    bad_status_tag[169] = 9;
    assert_eq!(proposal_from_bytes(&bad_status_tag), None);
    let good = proposal_to_bytes(&ProposalAccount::default());
    assert_eq!(proposal_from_bytes(&good[..good.len() - 1]), None);
}
