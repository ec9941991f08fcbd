use milestone_escrow::escrow::{EscrowError, EscrowLedger};
use milestone_escrow::escrow_command::{decode_escrow_command, EscrowCommand};
use milestone_escrow::identity::Identity;
use milestone_escrow::policy::PolicyError;
use milestone_escrow::policy_command::{
    decode_policy_command, encode_apply_progress, PolicyCommand, PolicyReply,
};
use milestone_escrow::policy::PolicyEngine;
use milestone_escrow::wire::{read_le, u16_le_bytes};

fn id(b: u8) -> Identity {
    Identity::from_bytes([b; 32])
}

fn with_id(op: u8, who: u8) -> Vec<u8> {
    let mut v = vec![op];
    v.extend_from_slice(&[who; 32]);
    v
}

#[test]
fn little_endian_reads() {
    let b = [0x34u8, 0x12, 0xff];
    assert_eq!(read_le(&b, 0, 2), 0x1234);
    assert_eq!(read_le(&b, 1, 2), 0xff12);
    assert_eq!(read_le(&b, 0, 0), 0);
    let all = [0xffu8; 16];
    assert_eq!(read_le(&all, 0, 16), u128::MAX);
    assert_eq!(u16_le_bytes(10000), (0x10, 0x27));
}

#[test]
fn decodes_create_project() {
    let mut b = vec![1u8];
    b.extend_from_slice(&1_000_000u128.to_le_bytes());
    match decode_escrow_command(&b) {
        Some(EscrowCommand::CreateProject { budget }) => assert_eq!(budget, 1_000_000),
        _ => panic!("not decoded"),
    }
    b.push(0);
    assert!(decode_escrow_command(&b).is_none());
}

#[test]
fn decodes_other_escrow_commands() {
    assert!(matches!(decode_escrow_command(&[2]), Some(EscrowCommand::FundProject)));
    assert!(matches!(decode_escrow_command(&[5]), Some(EscrowCommand::MarkFinalApproved)));
    assert!(matches!(
        decode_escrow_command(&[4, 2, 0x10, 0x27]),
        Some(EscrowCommand::ApplyProgress { index: 2, percent: 10000 })
    ));
    match decode_escrow_command(&with_id(3, 7)) {
        Some(EscrowCommand::SelectDeveloper { developer }) => assert!(developer.same_as(&id(7))),
        _ => panic!("not decoded"),
    }
    match decode_escrow_command(&with_id(6, 8)) {
        Some(EscrowCommand::SetVerifier { verifier: v }) => assert!(v.same_as(&id(8))),
        _ => panic!("not decoded"),
    }
}

#[test]
fn rejects_malformed_escrow_commands() {
    assert!(decode_escrow_command(&[]).is_none());
    assert!(decode_escrow_command(&[2, 0]).is_none());
    assert!(decode_escrow_command(&[4, 1, 0]).is_none());
    assert!(decode_escrow_command(&[7]).is_none());
    assert!(decode_escrow_command(&[0]).is_none());
}

#[test]
fn escrow_handles_binary_commands() {
    let owner = id(1);
    let mut l = EscrowLedger::new(owner, id(2), id(3));
    let mut create = vec![1u8];
    create.extend_from_slice(&1_000_000u128.to_le_bytes());
    assert_eq!(l.handle(&owner, &create), Ok(1));
    assert_eq!(l.handle(&owner, &[2]), Ok(1));
    assert_eq!(l.progress_pool, 570000);
    assert_eq!(l.handle(&owner, &with_id(3, 5)), Ok(1));
    assert_eq!(l.handle(&owner, &with_id(6, 9)), Ok(1));
    let approver = id(9);
    assert_eq!(l.handle(&approver, &[4, 1, 0x10, 0x27]), Ok(1));
    assert_eq!(l.released_progress, 190000);
    assert_eq!(l.handle(&approver, &[4, 1, 0x10, 0x27]), Ok(0));
    assert_eq!(l.handle(&approver, &[4, 1, 0x11, 0x27]), Err(EscrowError::PercentOutOfRange));
    assert_eq!(l.handle(&owner, &[5]), Err(EscrowError::MilestonesIncomplete));
    assert_eq!(l.handle(&owner, &[9]), Err(EscrowError::MalformedCommand));
    assert_eq!(l.handle(&owner, &[]), Err(EscrowError::MalformedCommand));
}

#[test]
fn non_owner_create_over_the_wire_changes_nothing() {
    let mut l = EscrowLedger::new(id(1), id(2), id(3));
    let mut create = vec![1u8];
    create.extend_from_slice(&1_000_000u128.to_le_bytes());
    assert_eq!(l.handle(&id(4), &create), Err(EscrowError::Unauthorized));
    assert!(!l.is_active);
    assert_eq!(l.budget, 0);
}

#[test]
fn escrow_init_payload() {
    let mut payload = vec![2u8; 32];
    payload.extend_from_slice(&[3u8; 32]);
    let l = EscrowLedger::from_init_payload(id(1), &payload).unwrap();
    assert!(l.treasury.same_as(&id(2)));
    assert!(l.value_ledger.same_as(&id(3)));
    assert!(l.owner.same_as(&id(1)));
    assert!(l.authorized_verifier.is_zero());
    assert!(l.developer.is_zero());
    assert!(!l.is_active && !l.is_funded && !l.developer_selected && !l.is_finalized);
    assert_eq!((l.budget, l.progress_pool, l.final_pool), (0, 0, 0));
    payload.pop();
    assert_eq!(
        EscrowLedger::from_init_payload(id(1), &payload).err(),
        Some(EscrowError::MalformedCommand)
    );
}

#[test]
fn decodes_policy_commands() {
    let mut set = with_id(1, 20);
    set.push(3);
    match decode_policy_command(&set) {
        Some(PolicyCommand::SetRelayer { relayer, slot }) => {
            assert!(relayer.same_as(&id(20)));
            assert_eq!(slot, 3);
        }
        _ => panic!("not decoded"),
    }
    assert!(matches!(
        decode_policy_command(&[2, 1, 0x2c, 0x01, 1]),
        Some(PolicyCommand::SubmitAttestation { index: 1, percent: 300, tests_passed: true })
    ));
    assert!(matches!(
        decode_policy_command(&[2, 1, 0x2c, 0x01, 0]),
        Some(PolicyCommand::SubmitAttestation { tests_passed: false, .. })
    ));
    assert!(decode_policy_command(&[2, 1, 0x2c, 0x01, 2]).is_none());
    assert!(matches!(decode_policy_command(&[3, 2]), Some(PolicyCommand::GetLastPercent { index: 2 })));
    assert!(matches!(decode_policy_command(&with_id(4, 9)), Some(PolicyCommand::SetEscrowTarget { .. })));
    assert!(decode_policy_command(&[3]).is_none());
    assert!(decode_policy_command(&[5, 0]).is_none());
}

#[test]
fn forwarded_update_is_an_apply_progress_command() {
    let b = encode_apply_progress(2, 10000);
    assert_eq!(b, vec![4, 2, 0x10, 0x27]);
    assert!(matches!(
        decode_escrow_command(&b),
        Some(EscrowCommand::ApplyProgress { index: 2, percent: 10000 })
    ));
}

#[test]
fn policy_handles_binary_commands() {
    let admin = id(1);
    let mut init = vec![0u8];
    init.extend_from_slice(&[30u8; 32]);
    let mut p = PolicyEngine::from_init_payload(admin, &init).unwrap();
    assert_eq!(p.policy.min_step_bps, 200);
    assert!(p.relayers.first.is_zero() && p.relayers.second.is_zero() && p.relayers.third.is_zero());
    assert!(p.escrow_target.same_as(&id(30)));
    assert!(p.policy.test_required);
    let mut set = with_id(1, 20);
    set.push(1);
    assert!(matches!(p.handle(&admin, &set), Ok(PolicyReply::Done)));
    let relayer = id(20);
    // 150 bps above the last value, under the 200 bps minimum step
    let r = p.handle(&relayer, &[2, 1, 150, 0, 1]).unwrap();
    assert!(matches!(r, PolicyReply::Rejected));
    assert_eq!(r.to_bytes(), vec![0]);
    let r = p.handle(&relayer, &[2, 1, 0x2c, 0x01, 1]).unwrap();
    match r {
        PolicyReply::Forward { target, index, percent } => {
            assert!(target.same_as(&id(30)));
            assert_eq!((index, percent), (1, 300));
        }
        _ => panic!("not forwarded"),
    }
    assert_eq!(r.to_bytes(), vec![1]);
    let q = p.handle(&id(50), &[3, 1]).unwrap();
    assert!(matches!(q, PolicyReply::LastPercent { percent: 300 }));
    assert_eq!(q.to_bytes(), vec![0x2c, 0x01]);
    assert_eq!(p.handle(&relayer, &[3, 0]).err(), Some(PolicyError::InvalidMilestoneIndex));
    assert_eq!(p.handle(&relayer, &[2, 1, 0, 0]).err(), Some(PolicyError::MalformedCommand));
    assert_eq!(PolicyEngine::from_init_payload(admin, &[0u8; 32]).err(), Some(PolicyError::MalformedCommand));
}
