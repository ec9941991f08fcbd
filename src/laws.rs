//! Properties of the two state machines over whole runs of commands.
use vstd::prelude::*;
use crate::milestones::{BPS_MAX, valid_index, lemma_with_raises};
use crate::escrow::{
    EscrowLedger,
    EscrowError,
    releasable,
    lemma_pools_fit,
    lemma_releasable_monotone,
    lemma_releasable_bounded,
};
use crate::escrow_command::EscrowCommand;
use crate::policy::{PolicyEngine, Attestation};
use crate::policy_command::PolicyCommand;

verus! {

/// The ledger after each `(caller, command)` of `steps` in turn.
pub open spec fn escrow_run(l: EscrowLedger, steps: Seq<(Seq<u8>, EscrowCommand)>) -> EscrowLedger
    decreases steps.len(),
{
    if steps.len() == 0 {
        l
    } else {
        escrow_run(l.after_command(steps[0].0, steps[0].1), steps.drop_first())
    }
}

/// The engine after each `(caller, command)` of `steps` in turn.
pub open spec fn policy_run(p: PolicyEngine, steps: Seq<(Seq<u8>, PolicyCommand)>) -> PolicyEngine
    decreases steps.len(),
{
    if steps.len() == 0 {
        p
    } else {
        policy_run(p.after_command(steps[0].0, steps[0].1), steps.drop_first())
    }
}

/// One escrow command keeps the invariant and only moves the ledger forward.
pub proof fn lemma_escrow_step(l: EscrowLedger, caller: Seq<u8>, c: EscrowCommand)
    requires
        l.wf(),
    ensures
        l.after_command(caller, c).wf(),
        l.evolves_to(l.after_command(caller, c)),
{
    match c {
        EscrowCommand::FundProject => {
            if l.fund_result(caller) is Ok {
                lemma_pools_fit(l.budget as int);
                lemma_releasable_bounded(0, 0);
                assert(releasable(crate::escrow::progress_share(l.budget as int), 0) == 0);
            }
        },
        EscrowCommand::ApplyProgress { index, percent } => {
            if l.apply_result(caller, index, percent) is Ok && percent > l.milestones.at(
                index as int,
            ) {
                let m = l.milestones.with(index as int, percent);
                lemma_with_raises(l.milestones, index as int, percent);
                lemma_releasable_monotone(l.progress_pool as int, l.milestones.total(), m.total());
                lemma_releasable_bounded(l.progress_pool as int, m.total());
            }
        },
        _ => {},
    }
}

/// `evolves_to` chains.
proof fn lemma_evolves_trans(a: EscrowLedger, b: EscrowLedger, c: EscrowLedger)
    requires
        a.evolves_to(b),
        b.evolves_to(c),
    ensures
        a.evolves_to(c),
{
}

/// Any run of escrow commands from a well-formed ledger keeps the invariant
/// and only moves the ledger forward.
pub proof fn lemma_escrow_run(l: EscrowLedger, steps: Seq<(Seq<u8>, EscrowCommand)>)
    requires
        l.wf(),
    ensures
        escrow_run(l, steps).wf(),
        l.evolves_to(escrow_run(l, steps)),
    decreases steps.len(),
{
    if steps.len() > 0 {
        let next = l.after_command(steps[0].0, steps[0].1);
        lemma_escrow_step(l, steps[0].0, steps[0].1);
        lemma_escrow_run(next, steps.drop_first());
        lemma_evolves_trans(l, next, escrow_run(next, steps.drop_first()));
    }
}

/// After any run of commands, the released progress amount is exactly the
/// progress pool times the milestone total over 30000: the cached amount
/// never drifts from the milestones.
pub proof fn law_released_progress_tracks_milestones(
    l: EscrowLedger,
    steps: Seq<(Seq<u8>, EscrowCommand)>,
)
    requires
        l.wf(),
    ensures
        escrow_run(l, steps).released_progress == releasable(
            escrow_run(l, steps).progress_pool as int,
            escrow_run(l, steps).milestones.total(),
        ),
{
    lemma_escrow_run(l, steps);
}

/// After any run of commands, what was released from the two pools
/// together never exceeds the two pools.
pub proof fn law_payout_within_pools(l: EscrowLedger, steps: Seq<(Seq<u8>, EscrowCommand)>)
    requires
        l.wf(),
    ensures
        escrow_run(l, steps).released_progress + escrow_run(l, steps).released_final
            <= escrow_run(l, steps).progress_pool + escrow_run(l, steps).final_pool,
{
    lemma_escrow_run(l, steps);
    let e = escrow_run(l, steps);
    lemma_releasable_bounded(e.progress_pool as int, e.milestones.total());
}

/// Over any run of escrow commands, no milestone percentage falls.
pub proof fn law_escrow_milestones_never_fall(l: EscrowLedger, steps: Seq<(Seq<u8>, EscrowCommand)>)
    requires
        l.wf(),
    ensures
        l.milestones.below(escrow_run(l, steps).milestones),
{
    lemma_escrow_run(l, steps);
}

/// One policy command keeps the invariant and lowers no recorded percentage.
pub proof fn lemma_policy_step(p: PolicyEngine, caller: Seq<u8>, c: PolicyCommand)
    requires
        p.wf(),
    ensures
        p.after_command(caller, c).wf(),
        p.last_percent.below(p.after_command(caller, c).last_percent),
{
    if let PolicyCommand::SubmitAttestation { index, percent, tests_passed } = c {
        if p.submit_result(caller, index, percent, tests_passed) matches Ok(
            Attestation::Accepted { .. },
        ) {
            lemma_with_raises(p.last_percent, index as int, percent);
        }
    }
}

/// Over any run of policy commands, no recorded milestone percentage falls.
pub proof fn law_policy_percentages_never_fall(p: PolicyEngine, steps: Seq<(Seq<u8>, PolicyCommand)>)
    requires
        p.wf(),
    ensures
        policy_run(p, steps).wf(),
        p.last_percent.below(policy_run(p, steps).last_percent),
    decreases steps.len(),
{
    if steps.len() > 0 {
        let next = p.after_command(steps[0].0, steps[0].1);
        lemma_policy_step(p, steps[0].0, steps[0].1);
        law_policy_percentages_never_fall(next, steps.drop_first());
    }
}

/// The owner's final approval succeeds exactly when every milestone is at
/// 10000 bps and no final approval has succeeded before.
pub proof fn law_final_approval_condition(l: EscrowLedger)
    requires
        l.wf(),
    ensures
        l.final_result(l.owner@) is Ok <==> (l.milestones.complete() && !l.is_finalized),
{
}

/// Once a final approval has succeeded, every later approval, after any run
/// of commands, fails; the owner's fails with `AlreadyFinalized`.
pub proof fn law_final_approval_once(
    l: EscrowLedger,
    caller: Seq<u8>,
    steps: Seq<(Seq<u8>, EscrowCommand)>,
    again: Seq<u8>,
)
    requires
        l.wf(),
        l.final_result(caller) is Ok,
    ensures
        escrow_run(l.after_command(caller, EscrowCommand::MarkFinalApproved), steps).final_result(
            again,
        ) is Err,
        l.owner@ == again ==> escrow_run(
            l.after_command(caller, EscrowCommand::MarkFinalApproved),
            steps,
        ).final_result(again) == Err::<u128, EscrowError>(EscrowError::AlreadyFinalized),
{
    let done = l.after_command(caller, EscrowCommand::MarkFinalApproved);
    lemma_escrow_step(l, caller, EscrowCommand::MarkFinalApproved);
    lemma_escrow_run(done, steps);
}

/// An attestation that rises by less than the minimum step is rejected,
/// leaving the engine as it was, even though it is a strict rise.
pub proof fn law_small_step_rejected(
    p: PolicyEngine,
    caller: Seq<u8>,
    index: u8,
    percent: u16,
    tests_passed: bool,
)
    requires
        p.relayers.admits(caller),
        valid_index(index as int),
        percent <= BPS_MAX,
        percent - p.last_percent.at(index as int) < p.policy.min_step_bps,
    ensures
        p.submit_result(caller, index, percent, tests_passed) matches Ok(Attestation::Rejected),
        p.after_command(
            caller,
            PolicyCommand::SubmitAttestation { index, percent, tests_passed },
        ) == p,
{
}

} // verus!
