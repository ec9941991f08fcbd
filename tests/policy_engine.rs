use milestone_escrow::deployment::{Deployment, DeploymentError};
use milestone_escrow::escrow::{EscrowError, EscrowLedger};
use milestone_escrow::identity::Identity;
use milestone_escrow::policy::{Attestation, Policy, PolicyEngine, PolicyError};

fn id(b: u8) -> Identity {
    Identity::from_bytes([b; 32])
}

fn admin() -> Identity {
    id(1)
}

fn relayer() -> Identity {
    id(20)
}

fn escrow_id() -> Identity {
    id(30)
}

fn engine(min_step_bps: u16, test_required: bool) -> PolicyEngine {
    let mut p = PolicyEngine::new(admin(), escrow_id(), Policy { min_step_bps, test_required });
    p.set_relayer(&admin(), relayer(), 2).unwrap();
    p
}

fn accepted(r: Result<Attestation, PolicyError>) -> Option<(Identity, u8, u16)> {
    match r {
        Ok(Attestation::Accepted { target, index, percent }) => Some((target, index, percent)),
        _ => None,
    }
}

#[test]
fn accepted_attestation_is_forwarded() {
    let mut p = engine(200, true);
    let (target, index, percent) = accepted(p.submit_attestation(&relayer(), 1, 300, true)).unwrap();
    assert!(target.same_as(&escrow_id()));
    assert_eq!((index, percent), (1, 300));
    assert_eq!(p.get_last_percent(1), Ok(300));
}

#[test]
fn step_below_minimum_is_rejected() {
    let mut p = engine(200, true);
    p.submit_attestation(&relayer(), 1, 1000, true).unwrap();
    let r = p.submit_attestation(&relayer(), 1, 1150, true);
    assert!(matches!(r, Ok(Attestation::Rejected)));
    assert_eq!(p.get_last_percent(1), Ok(1000));
}

#[test]
fn step_at_minimum_is_accepted() {
    let mut p = engine(200, false);
    assert!(accepted(p.submit_attestation(&relayer(), 3, 200, false)).is_some());
    assert_eq!(p.get_last_percent(3), Ok(200));
}

#[test]
fn non_increasing_attestation_is_rejected() {
    let mut p = engine(0, false);
    p.submit_attestation(&relayer(), 2, 500, false).unwrap();
    assert!(matches!(p.submit_attestation(&relayer(), 2, 500, false), Ok(Attestation::Rejected)));
    assert!(matches!(p.submit_attestation(&relayer(), 2, 100, false), Ok(Attestation::Rejected)));
    assert_eq!(p.get_last_percent(2), Ok(500));
}

#[test]
fn failing_tests_are_rejected_when_required() {
    let mut p = engine(200, true);
    assert!(matches!(p.submit_attestation(&relayer(), 1, 5000, false), Ok(Attestation::Rejected)));
    assert_eq!(p.get_last_percent(1), Ok(0));
    let mut q = engine(200, false);
    assert!(accepted(q.submit_attestation(&relayer(), 1, 5000, false)).is_some());
}

#[test]
fn only_whitelisted_relayers_submit() {
    let mut p = engine(200, true);
    assert_eq!(p.submit_attestation(&id(77), 1, 5000, true).err(), Some(PolicyError::Unauthorized));
    // an unset slot never matches, not even the zero identity
    assert_eq!(
        p.submit_attestation(&Identity::zero(), 1, 5000, true).err(),
        Some(PolicyError::Unauthorized)
    );
}

#[test]
fn attestation_errors() {
    let mut p = engine(200, true);
    assert_eq!(p.submit_attestation(&relayer(), 0, 500, true).err(), Some(PolicyError::InvalidMilestoneIndex));
    assert_eq!(p.submit_attestation(&relayer(), 1, 10001, true).err(), Some(PolicyError::PercentOutOfRange));
    assert_eq!(p.get_last_percent(4), Err(PolicyError::InvalidMilestoneIndex));
}

#[test]
fn relayer_slots() {
    let mut p = engine(200, true);
    assert_eq!(p.set_relayer(&relayer(), id(21), 1), Err(PolicyError::Unauthorized));
    assert_eq!(p.set_relayer(&admin(), id(21), 4), Err(PolicyError::InvalidSlot));
    assert_eq!(p.set_relayer(&admin(), id(21), 2), Ok(()));
    assert_eq!(p.submit_attestation(&relayer(), 1, 500, true).err(), Some(PolicyError::Unauthorized));
    assert!(accepted(p.submit_attestation(&id(21), 1, 500, true)).is_some());
}

#[test]
fn escrow_target_rules() {
    let mut p = engine(200, true);
    assert_eq!(p.set_escrow_target(&relayer(), id(40)), Err(PolicyError::Unauthorized));
    assert_eq!(p.set_escrow_target(&admin(), Identity::zero()), Err(PolicyError::ZeroEscrowTarget));
    assert_eq!(p.set_escrow_target(&admin(), id(40)), Ok(()));
    let (target, _, _) = accepted(p.submit_attestation(&relayer(), 1, 500, true)).unwrap();
    assert!(target.same_as(&id(40)));
}

#[test]
fn recorded_percentages_never_fall() {
    let mut p = engine(100, false);
    let steps: [(u8, u16); 6] = [(1, 150), (1, 200), (1, 120), (2, 9000), (1, 400), (2, 50)];
    for (i, pct) in steps {
        let before = p.last_percent;
        let _ = p.submit_attestation(&relayer(), i, pct, false);
        assert!(p.last_percent.first >= before.first);
        assert!(p.last_percent.second >= before.second);
        assert!(p.last_percent.third >= before.third);
    }
    assert_eq!(p.get_last_percent(1), Ok(400));
    assert_eq!(p.get_last_percent(2), Ok(9000));
}

fn deployment() -> Deployment {
    let owner = id(2);
    let bridge = id(31);
    let mut escrow = EscrowLedger::new(owner, id(3), id(4));
    escrow.create_project(&owner, 1_000_000).unwrap();
    escrow.fund_project(&owner).unwrap();
    escrow.select_developer(&owner, id(5)).unwrap();
    escrow.set_verifier(&owner, bridge).unwrap();
    Deployment { escrow, escrow_id: escrow_id(), policy: engine(200, true), policy_id: bridge }
}

#[test]
fn deployment_carries_accepted_attestation_to_escrow() {
    let mut d = deployment();
    let r = d.submit_attestation(&relayer(), 1, 10000, true);
    assert!(matches!(r, Ok(Attestation::Accepted { index: 1, percent: 10000, .. })));
    assert_eq!(d.escrow.milestones.first, 10000);
    assert_eq!(d.escrow.released_progress, 190000);
    assert_eq!(d.policy.get_last_percent(1), Ok(10000));
}

#[test]
fn deployment_small_step_forwards_nothing() {
    let mut d = deployment();
    d.submit_attestation(&relayer(), 1, 1000, true).unwrap();
    let released = d.escrow.released_progress;
    let r = d.submit_attestation(&relayer(), 1, 1150, true);
    assert!(matches!(r, Ok(Attestation::Rejected)));
    assert_eq!(d.policy.get_last_percent(1), Ok(1000));
    assert_eq!(d.escrow.milestones.first, 1000);
    assert_eq!(d.escrow.released_progress, released);
}

#[test]
fn deployment_rolls_back_when_escrow_refuses() {
    let mut d = deployment();
    let owner = id(2);
    d.escrow.set_verifier(&owner, id(99)).unwrap();
    let r = d.submit_attestation(&relayer(), 1, 5000, true);
    assert!(matches!(r, Err(DeploymentError::Escrow(EscrowError::Unauthorized))));
    assert_eq!(d.policy.get_last_percent(1), Ok(0));
    assert_eq!(d.escrow.milestones.first, 0);
}

#[test]
fn deployment_rolls_back_when_target_is_elsewhere() {
    let mut d = deployment();
    d.policy.set_escrow_target(&admin(), id(41)).unwrap();
    let r = d.submit_attestation(&relayer(), 2, 5000, true);
    assert!(matches!(r, Err(DeploymentError::Undeliverable)));
    assert_eq!(d.policy.get_last_percent(2), Ok(0));
    assert_eq!(d.escrow.milestones.second, 0);
}

#[test]
fn deployment_policy_error_changes_nothing() {
    let mut d = deployment();
    let r = d.submit_attestation(&id(66), 2, 5000, true);
    assert!(matches!(r, Err(DeploymentError::Policy(PolicyError::Unauthorized))));
    assert_eq!(d.policy.get_last_percent(2), Ok(0));
}
