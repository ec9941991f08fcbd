use milestone_escrow::escrow::{EscrowError, EscrowLedger, ProgressOutcome};
use milestone_escrow::identity::Identity;

fn id(b: u8) -> Identity {
    Identity::from_bytes([b; 32])
}

fn owner() -> Identity {
    id(1)
}

fn approver() -> Identity {
    id(9)
}

fn ledger() -> EscrowLedger {
    EscrowLedger::new(owner(), id(2), id(3))
}

fn selected(budget: u128) -> EscrowLedger {
    let mut l = ledger();
    l.create_project(&owner(), budget).unwrap();
    l.fund_project(&owner()).unwrap();
    l.select_developer(&owner(), id(5)).unwrap();
    l.set_verifier(&owner(), approver()).unwrap();
    l
}

#[test]
fn funding_splits_budget_into_pools() {
    let mut l = ledger();
    assert_eq!(l.create_project(&owner(), 1_000_000), Ok(()));
    assert_eq!(l.fund_project(&owner()), Ok(()));
    assert_eq!(l.progress_pool, 570000);
    assert_eq!(l.final_pool, 332500);
    assert!(l.is_funded);
    assert_eq!(l.budget, 1_000_000);
}

#[test]
fn funding_truncates_each_step() {
    let mut l = ledger();
    l.create_project(&owner(), 1001).unwrap();
    l.fund_project(&owner()).unwrap();
    // fee 50, net 951, 60% = 570, 35% = 332
    assert_eq!(l.progress_pool, 570);
    assert_eq!(l.final_pool, 332);
}

#[test]
fn full_first_milestone_releases_a_third() {
    let mut l = selected(1_000_000);
    let r = l.apply_progress(&approver(), 1, 10000);
    assert_eq!(r, Ok(ProgressOutcome::Applied { payout: 190000 }));
    assert_eq!(l.released_progress, 570000 / 3);
    assert_eq!(l.milestones.first, 10000);
    assert_eq!(l.milestones.second, 0);
}

#[test]
fn third_of_pool_is_truncated() {
    let mut l = selected(1_000_001);
    // net = 1000001 - 50000 = 950001, progress pool = 570000
    let pool = l.progress_pool;
    l.apply_progress(&approver(), 1, 10000).unwrap();
    assert_eq!(l.released_progress, pool * 10000 / 30000);
}

#[test]
fn non_owner_cannot_create() {
    let mut l = ledger();
    let before = l;
    assert_eq!(l.create_project(&id(7), 1_000_000), Err(EscrowError::Unauthorized));
    assert!(!l.is_active);
    assert_eq!(l.budget, before.budget);
}

#[test]
fn create_errors() {
    let mut l = ledger();
    assert_eq!(l.create_project(&owner(), 0), Err(EscrowError::InvalidBudget));
    l.create_project(&owner(), 10).unwrap();
    assert_eq!(l.create_project(&owner(), 10), Err(EscrowError::AlreadyCreated));
}

#[test]
fn fund_errors() {
    let mut l = ledger();
    assert_eq!(l.fund_project(&owner()), Err(EscrowError::NotActive));
    l.create_project(&owner(), 100).unwrap();
    assert_eq!(l.fund_project(&id(8)), Err(EscrowError::Unauthorized));
    l.fund_project(&owner()).unwrap();
    assert_eq!(l.fund_project(&owner()), Err(EscrowError::AlreadyFunded));
}

#[test]
fn fund_overflow_is_hard_failure() {
    let mut l = ledger();
    l.create_project(&owner(), u128::MAX).unwrap();
    assert_eq!(l.fund_project(&owner()), Err(EscrowError::Overflow));
    assert!(!l.is_funded);
    assert_eq!(l.progress_pool, 0);
}

#[test]
fn select_errors() {
    let mut l = ledger();
    l.create_project(&owner(), 100).unwrap();
    assert_eq!(l.select_developer(&owner(), id(5)), Err(EscrowError::NotFunded));
    l.fund_project(&owner()).unwrap();
    l.select_developer(&owner(), id(5)).unwrap();
    assert!(l.developer.same_as(&id(5)));
    assert_eq!(l.select_developer(&owner(), id(6)), Err(EscrowError::AlreadySelected));
}

#[test]
fn apply_errors() {
    let mut l = ledger();
    l.set_verifier(&owner(), approver()).unwrap();
    assert_eq!(l.apply_progress(&approver(), 1, 100), Err(EscrowError::DeveloperNotSelected));
    let mut l = selected(1_000_000);
    assert_eq!(l.apply_progress(&owner(), 1, 100), Err(EscrowError::Unauthorized));
    assert_eq!(l.apply_progress(&approver(), 1, 10001), Err(EscrowError::PercentOutOfRange));
    assert_eq!(l.apply_progress(&approver(), 0, 100), Err(EscrowError::InvalidMilestoneIndex));
    assert_eq!(l.apply_progress(&approver(), 4, 100), Err(EscrowError::InvalidMilestoneIndex));
    assert_eq!(l.released_progress, 0);
}

#[test]
fn non_increasing_update_is_not_applied() {
    let mut l = selected(1_000_000);
    l.apply_progress(&approver(), 2, 5000).unwrap();
    let released = l.released_progress;
    assert_eq!(l.apply_progress(&approver(), 2, 5000), Ok(ProgressOutcome::NotApplied));
    assert_eq!(l.apply_progress(&approver(), 2, 4000), Ok(ProgressOutcome::NotApplied));
    assert_eq!(l.milestones.second, 5000);
    assert_eq!(l.released_progress, released);
}

#[test]
fn released_progress_follows_milestone_total() {
    let mut l = selected(1_000_000);
    let steps: [(u8, u16); 5] = [(1, 3333), (2, 1), (3, 7777), (1, 9999), (2, 10000)];
    let mut paid: u128 = 0;
    for (i, p) in steps {
        if let Ok(ProgressOutcome::Applied { payout }) = l.apply_progress(&approver(), i, p) {
            paid += payout;
        }
        let total = l.milestones.first as u128 + l.milestones.second as u128 + l.milestones.third as u128;
        assert_eq!(l.released_progress, l.progress_pool * total / 30000);
        assert_eq!(paid, l.released_progress);
        assert!(l.released_progress + l.released_final <= l.progress_pool + l.final_pool);
    }
}

#[test]
fn progress_overflow_is_hard_failure() {
    let mut l = ledger();
    let budget = u128::MAX / 60;
    l.create_project(&owner(), budget).unwrap();
    l.fund_project(&owner()).unwrap();
    l.select_developer(&owner(), id(5)).unwrap();
    l.set_verifier(&owner(), approver()).unwrap();
    let before = l;
    assert_eq!(l.apply_progress(&approver(), 1, 10000), Err(EscrowError::Overflow));
    assert_eq!(l.milestones, before.milestones);
    assert_eq!(l.released_progress, 0);
}

#[test]
fn final_approval_needs_all_milestones_and_happens_once() {
    let mut l = selected(1_000_000);
    assert_eq!(l.mark_final_approved(&owner()), Err(EscrowError::MilestonesIncomplete));
    l.apply_progress(&approver(), 1, 10000).unwrap();
    l.apply_progress(&approver(), 2, 10000).unwrap();
    assert_eq!(l.mark_final_approved(&owner()), Err(EscrowError::MilestonesIncomplete));
    l.apply_progress(&approver(), 3, 10000).unwrap();
    assert_eq!(l.released_progress, 570000);
    assert_eq!(l.mark_final_approved(&approver()), Err(EscrowError::Unauthorized));
    assert_eq!(l.mark_final_approved(&owner()), Ok(332500));
    assert_eq!(l.released_final, 332500);
    assert_eq!(l.mark_final_approved(&owner()), Err(EscrowError::AlreadyFinalized));
    assert!(l.released_progress + l.released_final <= l.progress_pool + l.final_pool);
}

#[test]
fn set_verifier_is_owner_only() {
    let mut l = ledger();
    assert_eq!(l.set_verifier(&id(4), approver()), Err(EscrowError::Unauthorized));
    assert!(l.authorized_verifier.is_zero());
    assert_eq!(l.set_verifier(&owner(), approver()), Ok(()));
    assert!(l.authorized_verifier.same_as(&approver()));
}

#[test]
fn milestones_never_fall() {
    let mut l = selected(3_000_000);
    let mut prev = l.milestones;
    let steps: [(u8, u16); 6] = [(3, 500), (3, 400), (1, 20), (3, 9000), (1, 10), (2, 0)];
    for (i, p) in steps {
        let _ = l.apply_progress(&approver(), i, p);
        assert!(l.milestones.first >= prev.first);
        assert!(l.milestones.second >= prev.second);
        assert!(l.milestones.third >= prev.third);
        prev = l.milestones;
    }
}

#[test]
fn final_approval_is_once_even_with_empty_final_pool() {
    let mut l = selected(1);
    assert_eq!(l.final_pool, 0);
    for i in 1..=3u8 {
        l.apply_progress(&approver(), i, 10000).unwrap();
    }
    assert_eq!(l.mark_final_approved(&owner()), Ok(0));
    assert!(l.is_finalized);
    assert_eq!(l.mark_final_approved(&owner()), Err(EscrowError::AlreadyFinalized));
    assert_eq!(l.mark_final_approved(&owner()), Err(EscrowError::AlreadyFinalized));
}
