//! The escrow ledger: project lifecycle, funding pools, milestone progress
//! and the amounts authorized for release.
use vstd::prelude::*;
use crate::identity::{Identity, zero_bytes};
use crate::milestones::{Milestones, BPS_MAX, valid_index, lemma_with_raises};
use vstd::arithmetic::div_mod::lemma_div_is_ordered;
use vstd::arithmetic::mul::lemma_mul_inequality;

verus! {

/// Sum of the three milestones' basis points at completion.
pub const TOTAL_BPS: u128 = 30000;

/// Hard failures of the escrow ledger; the call changes nothing.
#[derive(Clone, Copy, Debug, PartialEq, Eq, Structural)]
pub enum EscrowError {
    Unauthorized,
    AlreadyCreated,
    InvalidBudget,
    NotActive,
    AlreadyFunded,
    NotFunded,
    AlreadySelected,
    DeveloperNotSelected,
    InvalidMilestoneIndex,
    PercentOutOfRange,
    AlreadyFinalized,
    MilestonesIncomplete,
    Overflow,
    MalformedCommand,
}

/// What a successful progress update did.
#[derive(Clone, Copy, Debug, PartialEq, Eq, Structural)]
pub enum ProgressOutcome {
    /// The milestone rose; `payout` more of the progress pool is released.
    Applied { payout: u128 },
    /// The new value was not above the recorded one; nothing changed.
    NotApplied,
}

/// The fee withheld at funding: 5% of the budget, truncated.
pub open spec fn fee_of(budget: int) -> int {
    budget * 5 / 100
}

/// The budget net of the fee.
pub open spec fn net_of(budget: int) -> int {
    budget - fee_of(budget)
}

/// The progress pool: 60% of the net budget, truncated.
pub open spec fn progress_share(budget: int) -> int {
    net_of(budget) * 60 / 100
}

/// The final pool: 35% of the net budget, truncated.
pub open spec fn final_share(budget: int) -> int {
    net_of(budget) * 35 / 100
}

/// Funding a budget stays within `u128` at every step.
pub open spec fn funding_fits(budget: int) -> bool {
    budget * 5 <= u128::MAX && net_of(budget) * 60 <= u128::MAX
}

/// The part of `pool` released when the milestones sum to `total` basis points.
pub open spec fn releasable(pool: int, total: int) -> int {
    pool * total / (TOTAL_BPS as int)
}

/// More milestone progress never releases less.
pub proof fn lemma_releasable_monotone(pool: int, t1: int, t2: int)
    requires
        0 <= pool,
        0 <= t1 <= t2,
    ensures
        0 <= releasable(pool, t1) <= releasable(pool, t2),
{
    lemma_mul_inequality(t1, t2, pool);
    assert(pool * t1 == t1 * pool && pool * t2 == t2 * pool) by (nonlinear_arith);
    assert(0 <= pool * t1) by (nonlinear_arith)
        requires
            0 <= pool,
            0 <= t1,
    ;
    lemma_div_is_ordered(pool * t1, pool * t2, TOTAL_BPS as int);
}

/// At most the whole pool is ever released.
pub proof fn lemma_releasable_bounded(pool: int, total: int)
    requires
        0 <= pool,
        0 <= total <= TOTAL_BPS,
    ensures
        0 <= releasable(pool, total) <= pool,
{
    lemma_releasable_monotone(pool, total, TOTAL_BPS as int);
    assert(pool * 30000 / 30000 == pool) by (nonlinear_arith);
}

/// The two pools together take at most 95% of the net budget.
pub proof fn lemma_pools_fit(budget: int)
    requires
        0 < budget,
    ensures
        0 <= fee_of(budget) <= budget,
        0 <= progress_share(budget),
        0 <= final_share(budget),
        progress_share(budget) + final_share(budget) <= budget,
{
    assert(0 <= budget * 5 / 100 <= budget) by (nonlinear_arith)
        requires
            0 < budget,
    ;
    let net = net_of(budget);
    assert(0 <= net * 60 / 100 && 0 <= net * 35 / 100 && net * 60 / 100 + net * 35 / 100 <= net)
        by (nonlinear_arith)
        requires
            0 <= net,
    ;
}

/// The state of one project.
#[derive(Clone, Copy, Debug)]
pub struct EscrowLedger {
    pub owner: Identity,
    pub developer: Identity,
    pub authorized_verifier: Identity,
    pub treasury: Identity,
    pub value_ledger: Identity,
    pub budget: u128,
    pub is_active: bool,
    pub is_funded: bool,
    pub developer_selected: bool,
    pub progress_pool: u128,
    pub final_pool: u128,
    pub released_progress: u128,
    pub released_final: u128,
    /// Set once the final pool has been released; never cleared.
    pub is_finalized: bool,
    pub milestones: Milestones,
}

impl EscrowLedger {
    /// The ledger's invariant.
    pub open spec fn wf(self) -> bool {
        &&& self.milestones.in_range()
        &&& self.released_progress == releasable(self.progress_pool as int, self.milestones.total())
        &&& (self.is_finalized ==> self.released_final == self.final_pool && self.milestones.complete())
        &&& (!self.is_finalized ==> self.released_final == 0)
        &&& (self.is_funded ==> self.is_active)
        &&& (self.developer_selected ==> self.is_funded)
        &&& (!self.is_active ==> self.budget == 0)
        &&& (self.is_active ==> self.budget > 0)
        &&& (self.is_funded ==> {
            &&& self.progress_pool == progress_share(self.budget as int)
            &&& self.final_pool == final_share(self.budget as int)
        })
        &&& (!self.is_funded ==> self.progress_pool == 0 && self.final_pool == 0)
        &&& (!self.developer_selected ==> self.milestones.total() == 0)
        &&& self.progress_pool + self.final_pool <= self.budget
    }

    /// What the ledger promises across any one step: flags stay set, the budget
    /// and pools stay once fixed, milestones and released amounts never fall.
    pub open spec fn evolves_to(self, next: EscrowLedger) -> bool {
        &&& self.owner == next.owner
        &&& (self.is_active ==> next.is_active && next.budget == self.budget)
        &&& (self.is_funded ==> {
            &&& next.is_funded
            &&& next.progress_pool == self.progress_pool
            &&& next.final_pool == self.final_pool
        })
        &&& (self.developer_selected ==> next.developer_selected && next.developer == self.developer)
        &&& self.milestones.below(next.milestones)
        &&& self.released_progress <= next.released_progress
        &&& self.released_final <= next.released_final
        &&& (self.is_finalized ==> next.is_finalized)
    }

    /// The ledger once the project is opened with `budget`.
    pub open spec fn created(self, budget: u128) -> EscrowLedger {
        EscrowLedger { budget, is_active: true, ..self }
    }

    /// The ledger once funded: the pools are split off the budget.
    pub open spec fn funded(self) -> EscrowLedger {
        EscrowLedger {
            is_funded: true,
            progress_pool: progress_share(self.budget as int) as u128,
            final_pool: final_share(self.budget as int) as u128,
            ..self
        }
    }

    /// The ledger once `developer` is selected.
    pub open spec fn with_developer(self, developer: Identity) -> EscrowLedger {
        EscrowLedger { developer, developer_selected: true, ..self }
    }

    /// The ledger once the final pool is released.
    pub open spec fn finalized(self) -> EscrowLedger {
        EscrowLedger { released_final: self.final_pool, is_finalized: true, ..self }
    }

    /// The ledger with `verifier` as the authorized verifier.
    pub open spec fn with_verifier(self, verifier: Identity) -> EscrowLedger {
        EscrowLedger { authorized_verifier: verifier, ..self }
    }

    /// The outcome of `set_verifier`.
    pub open spec fn verifier_result(self, caller: Seq<u8>) -> Result<(), EscrowError> {
        if caller != self.owner@ {
            Err(EscrowError::Unauthorized)
        } else {
            Ok(())
        }
    }

    /// A fresh ledger owned by `owner`, with no project yet.
    pub fn new(owner: Identity, treasury: Identity, value_ledger: Identity) -> (r: EscrowLedger)
        ensures
            r.wf(),
            r.owner == owner,
            r.treasury == treasury,
            r.value_ledger == value_ledger,
            r.authorized_verifier@ == zero_bytes(),
            r.developer@ == zero_bytes(),
            !r.is_active && !r.is_funded && !r.developer_selected,
            r.budget == 0,
            r.released_progress == 0 && r.released_final == 0,
            !r.is_finalized,
            r.progress_pool == 0 && r.final_pool == 0,
            r.milestones.total() == 0,
    {
        EscrowLedger {
            owner,
            developer: Identity::zero(),
            authorized_verifier: Identity::zero(),
            treasury,
            value_ledger,
            budget: 0,
            is_active: false,
            is_funded: false,
            developer_selected: false,
            progress_pool: 0,
            final_pool: 0,
            released_progress: 0,
            released_final: 0,
            is_finalized: false,
            milestones: Milestones::zero(),
        }
    }

    /// The outcome of `create_project`.
    pub open spec fn create_result(self, caller: Seq<u8>, budget: u128) -> Result<(), EscrowError> {
        if caller != self.owner@ {
            Err(EscrowError::Unauthorized)
        } else if self.is_active {
            Err(EscrowError::AlreadyCreated)
        } else if budget == 0 {
            Err(EscrowError::InvalidBudget)
        } else {
            Ok(())
        }
    }

    /// Opens the project with a positive budget; owner only, once.
    pub fn create_project(&mut self, caller: &Identity, budget: u128) -> (r: Result<(), EscrowError>)
        requires
            old(self).wf(),
        ensures
            r == old(self).create_result(caller@, budget),
            *final(self) == (if r is Ok {
                old(self).created(budget)
            } else {
                *old(self)
            }),
            final(self).wf(),
            old(self).evolves_to(*final(self)),
    {
        if !caller.same_as(&self.owner) {
            return Err(EscrowError::Unauthorized);
        }
        if self.is_active {
            return Err(EscrowError::AlreadyCreated);
        }
        if budget == 0 {
            return Err(EscrowError::InvalidBudget);
        }
        self.budget = budget;
        self.is_active = true;
        Ok(())
    }

    /// The outcome of `fund_project`.
    pub open spec fn fund_result(self, caller: Seq<u8>) -> Result<(), EscrowError> {
        if caller != self.owner@ {
            Err(EscrowError::Unauthorized)
        } else if !self.is_active {
            Err(EscrowError::NotActive)
        } else if self.is_funded {
            Err(EscrowError::AlreadyFunded)
        } else if !funding_fits(self.budget as int) {
            Err(EscrowError::Overflow)
        } else {
            Ok(())
        }
    }

    /// Splits the budget into the progress and final pools; owner only, once.
    pub fn fund_project(&mut self, caller: &Identity) -> (r: Result<(), EscrowError>)
        requires
            old(self).wf(),
        ensures
            r == old(self).fund_result(caller@),
            *final(self) == (if r is Ok {
                old(self).funded()
            } else {
                *old(self)
            }),
            final(self).wf(),
            old(self).evolves_to(*final(self)),
    {
        if !caller.same_as(&self.owner) {
            return Err(EscrowError::Unauthorized);
        }
        if !self.is_active {
            return Err(EscrowError::NotActive);
        }
        if self.is_funded {
            return Err(EscrowError::AlreadyFunded);
        }
        let budget = self.budget;
        proof {
            lemma_pools_fit(budget as int);
        }
        let fee = match budget.checked_mul(5) {
            Some(x) => x / 100,
            None => return Err(EscrowError::Overflow),
        };
        let net = budget - fee;
        let progress = match net.checked_mul(60) {
            Some(x) => x / 100,
            None => return Err(EscrowError::Overflow),
        };
        let final_amount = net * 35 / 100;
        self.progress_pool = progress;
        self.final_pool = final_amount;
        self.is_funded = true;
        proof {
            assert(releasable(progress as int, 0) == 0);
        }
        Ok(())
    }

    /// The outcome of `select_developer`.
    pub open spec fn select_result(self, caller: Seq<u8>) -> Result<(), EscrowError> {
        if caller != self.owner@ {
            Err(EscrowError::Unauthorized)
        } else if !self.is_funded {
            Err(EscrowError::NotFunded)
        } else if self.developer_selected {
            Err(EscrowError::AlreadySelected)
        } else {
            Ok(())
        }
    }

    /// Assigns the developer; owner only, once, after funding.
    pub fn select_developer(&mut self, caller: &Identity, developer: Identity) -> (r: Result<(), EscrowError>)
        requires
            old(self).wf(),
        ensures
            r == old(self).select_result(caller@),
            *final(self) == (if r is Ok {
                old(self).with_developer(developer)
            } else {
                *old(self)
            }),
            final(self).wf(),
            old(self).evolves_to(*final(self)),
    {
        if !caller.same_as(&self.owner) {
            return Err(EscrowError::Unauthorized);
        }
        if !self.is_funded {
            return Err(EscrowError::NotFunded);
        }
        if self.developer_selected {
            return Err(EscrowError::AlreadySelected);
        }
        self.developer = developer;
        self.developer_selected = true;
        Ok(())
    }

    /// The outcome of `apply_progress`.
    pub open spec fn apply_result(self, caller: Seq<u8>, index: u8, percent: u16) -> Result<
        ProgressOutcome,
        EscrowError,
    > {
        if caller != self.authorized_verifier@ {
            Err(EscrowError::Unauthorized)
        } else if !self.developer_selected {
            Err(EscrowError::DeveloperNotSelected)
        } else if percent > BPS_MAX {
            Err(EscrowError::PercentOutOfRange)
        } else if !valid_index(index as int) {
            Err(EscrowError::InvalidMilestoneIndex)
        } else if percent <= self.milestones.at(index as int) {
            Ok(ProgressOutcome::NotApplied)
        } else if self.progress_pool * self.milestones.with(index as int, percent).total()
            > u128::MAX {
            Err(EscrowError::Overflow)
        } else {
            Ok(
                ProgressOutcome::Applied {
                    payout: (releasable(
                        self.progress_pool as int,
                        self.milestones.with(index as int, percent).total(),
                    ) - self.released_progress) as u128,
                },
            )
        }
    }

    /// The ledger after milestone `index` rose to `percent`: the released
    /// progress amount follows the new milestone total.
    pub open spec fn progressed(self, index: u8, percent: u16) -> EscrowLedger {
        let m = self.milestones.with(index as int, percent);
        EscrowLedger {
            milestones: m,
            released_progress: releasable(self.progress_pool as int, m.total()) as u128,
            ..self
        }
    }

    /// Records a verified milestone percentage; authorized verifier only.
    /// A value not above the recorded one is a no-op reported as `NotApplied`.
    pub fn apply_progress(&mut self, caller: &Identity, index: u8, percent: u16) -> (r: Result<
        ProgressOutcome,
        EscrowError,
    >)
        requires
            old(self).wf(),
        ensures
            r == old(self).apply_result(caller@, index, percent),
            *final(self) == (if r matches Ok(ProgressOutcome::Applied { .. }) {
                old(self).progressed(index, percent)
            } else {
                *old(self)
            }),
            final(self).wf(),
            old(self).evolves_to(*final(self)),
    {
        if !caller.same_as(&self.authorized_verifier) {
            return Err(EscrowError::Unauthorized);
        }
        if !self.developer_selected {
            return Err(EscrowError::DeveloperNotSelected);
        }
        if percent > BPS_MAX {
            return Err(EscrowError::PercentOutOfRange);
        }
        if index < 1 || index > 3 {
            return Err(EscrowError::InvalidMilestoneIndex);
        }
        if percent <= self.milestones.get(index) {
            return Ok(ProgressOutcome::NotApplied);
        }
        let mut next = self.milestones;
        next.set(index, percent);
        let total = next.sum();
        let product = match self.progress_pool.checked_mul(total as u128) {
            Some(x) => x,
            None => return Err(EscrowError::Overflow),
        };
        let release = product / TOTAL_BPS;
        proof {
            lemma_with_raises(self.milestones, index as int, percent);
            lemma_releasable_monotone(
                self.progress_pool as int,
                self.milestones.total(),
                next.total(),
            );
            lemma_releasable_bounded(self.progress_pool as int, next.total());
        }
        let payout = release - self.released_progress;
        self.milestones = next;
        if payout > 0 {
            self.released_progress = self.released_progress + payout;
        }
        Ok(ProgressOutcome::Applied { payout })
    }

    /// The outcome of `mark_final_approved`: the final pool, once released.
    pub open spec fn final_result(self, caller: Seq<u8>) -> Result<u128, EscrowError> {
        if caller != self.owner@ {
            Err(EscrowError::Unauthorized)
        } else if self.is_finalized {
            Err(EscrowError::AlreadyFinalized)
        } else if !self.milestones.complete() {
            Err(EscrowError::MilestonesIncomplete)
        } else {
            Ok(self.final_pool)
        }
    }

    /// Releases the final pool once every milestone is complete; owner only.
    /// Returns the amount released.
    pub fn mark_final_approved(&mut self, caller: &Identity) -> (r: Result<u128, EscrowError>)
        requires
            old(self).wf(),
        ensures
            r == old(self).final_result(caller@),
            *final(self) == (if r is Ok {
                old(self).finalized()
            } else {
                *old(self)
            }),
            final(self).wf(),
            old(self).evolves_to(*final(self)),
    {
        if !caller.same_as(&self.owner) {
            return Err(EscrowError::Unauthorized);
        }
        if self.is_finalized {
            return Err(EscrowError::AlreadyFinalized);
        }
        if !self.milestones.all_complete() {
            return Err(EscrowError::MilestonesIncomplete);
        }
        self.released_final = self.final_pool;
        self.is_finalized = true;
        Ok(self.final_pool)
    }

    /// Replaces the identity allowed to apply progress; owner only.
    pub fn set_verifier(&mut self, caller: &Identity, verifier: Identity) -> (r: Result<(), EscrowError>)
        requires
            old(self).wf(),
        ensures
            r == old(self).verifier_result(caller@),
            *final(self) == (if r is Ok {
                old(self).with_verifier(verifier)
            } else {
                *old(self)
            }),
            final(self).wf(),
            old(self).evolves_to(*final(self)),
    {
        if !caller.same_as(&self.owner) {
            return Err(EscrowError::Unauthorized);
        }
        self.authorized_verifier = verifier;
        Ok(())
    }
}

} // verus!
