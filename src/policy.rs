//! Relayer attestations and the rules an attestation must meet before a
//! milestone update goes on to the escrow ledger.
use vstd::prelude::*;
use crate::identity::{Identity, zero_bytes};
use crate::milestones::{Milestones, BPS_MAX, valid_index};

verus! {

/// Hard failures of the policy engine; the call changes nothing.
#[derive(Clone, Copy, Debug, PartialEq, Eq, Structural)]
pub enum PolicyError {
    Unauthorized,
    InvalidSlot,
    InvalidMilestoneIndex,
    PercentOutOfRange,
    ZeroEscrowTarget,
    MalformedCommand,
}

/// The anti-manipulation policy.
#[derive(Clone, Copy, Debug, PartialEq, Eq, Structural)]
pub struct Policy {
    /// Smallest accepted rise of a milestone, in basis points.
    pub min_step_bps: u16,
    /// Whether an attestation must report passing tests.
    pub test_required: bool,
}

/// What an attestation that passed authorization led to.
#[derive(Clone, Copy, Debug)]
pub enum Attestation {
    /// Accepted: milestone `index` is to be raised to `percent` at the escrow `target`.
    Accepted { target: Identity, index: u8, percent: u16 },
    /// Failed the policy; nothing changed and nothing is forwarded.
    Rejected,
}

/// The three relayer slots; an unset slot holds the zero identity.
#[derive(Clone, Copy, Debug)]
pub struct Relayers {
    pub first: Identity,
    pub second: Identity,
    pub third: Identity,
}

/// Whether `slot` names a relayer slot (slots are numbered from 1).
pub open spec fn valid_slot(slot: int) -> bool {
    1 <= slot <= 3
}

/// Whether an attestation raising `last` to `percent` meets `policy`:
/// a strict rise, by at least the minimum step, with the test gate met.
pub open spec fn passes_policy(policy: Policy, last: int, percent: int, tests_passed: bool) -> bool {
    &&& percent > last
    &&& percent - last >= policy.min_step_bps
    &&& (!policy.test_required || tests_passed)
}

impl Relayers {
    /// Whether `who` is whitelisted: a non-zero identity held in some slot.
    pub open spec fn admits(self, who: Seq<u8>) -> bool {
        &&& who != zero_bytes()
        &&& (who == self.first@ || who == self.second@ || who == self.third@)
    }

    /// The relayers with slot `slot` set to `who`.
    pub open spec fn with(self, slot: int, who: Identity) -> Relayers {
        if slot == 1 {
            Relayers { first: who, ..self }
        } else if slot == 2 {
            Relayers { second: who, ..self }
        } else {
            Relayers { third: who, ..self }
        }
    }

    /// Whether `who` may submit attestations.
    pub fn contains(&self, who: &Identity) -> (r: bool)
        ensures
            r == self.admits(who@),
    {
        if who.is_zero() {
            return false;
        }
        who.same_as(&self.first) || who.same_as(&self.second) || who.same_as(&self.third)
    }
}

/// The policy engine's state.
#[derive(Clone, Copy, Debug)]
pub struct PolicyEngine {
    pub admin: Identity,
    pub escrow_target: Identity,
    pub relayers: Relayers,
    pub last_percent: Milestones,
    pub policy: Policy,
}

impl PolicyEngine {
    /// The engine's invariant: recorded percentages stay in range.
    pub open spec fn wf(self) -> bool {
        self.last_percent.in_range()
    }

    /// The engine with `who` in relayer slot `slot`.
    pub open spec fn with_relayer(self, slot: u8, who: Identity) -> PolicyEngine {
        PolicyEngine { relayers: self.relayers.with(slot as int, who), ..self }
    }

    /// The engine once milestone `index` was accepted at `percent`.
    pub open spec fn attested(self, index: u8, percent: u16) -> PolicyEngine {
        PolicyEngine { last_percent: self.last_percent.with(index as int, percent), ..self }
    }

    /// The engine forwarding to `target`.
    pub open spec fn with_target(self, target: Identity) -> PolicyEngine {
        PolicyEngine { escrow_target: target, ..self }
    }

    /// A fresh engine administered by `admin`, forwarding to `escrow_target`,
    /// with no relayers, all milestones at zero, and the given policy.
    pub fn new(admin: Identity, escrow_target: Identity, policy: Policy) -> (r: PolicyEngine)
        ensures
            r.wf(),
            r.admin == admin,
            r.escrow_target == escrow_target,
            r.policy == policy,
            r.last_percent.total() == 0,
            r.relayers.first@ == zero_bytes(),
            r.relayers.second@ == zero_bytes(),
            r.relayers.third@ == zero_bytes(),
    {
        PolicyEngine {
            admin,
            escrow_target,
            relayers: Relayers {
                first: Identity::zero(),
                second: Identity::zero(),
                third: Identity::zero(),
            },
            last_percent: Milestones::zero(),
            policy,
        }
    }

    /// The outcome of `set_relayer`.
    pub open spec fn set_relayer_result(self, caller: Seq<u8>, slot: u8) -> Result<(), PolicyError> {
        if caller != self.admin@ {
            Err(PolicyError::Unauthorized)
        } else if !valid_slot(slot as int) {
            Err(PolicyError::InvalidSlot)
        } else {
            Ok(())
        }
    }

    /// Puts `relayer` into slot `slot`, overwriting it; admin only.
    pub fn set_relayer(&mut self, caller: &Identity, relayer: Identity, slot: u8) -> (r: Result<(), PolicyError>)
        requires
            old(self).wf(),
        ensures
            r == old(self).set_relayer_result(caller@, slot),
            *final(self) == (if r is Ok {
                old(self).with_relayer(slot, relayer)
            } else {
                *old(self)
            }),
            final(self).wf(),
    {
        if !caller.same_as(&self.admin) {
            return Err(PolicyError::Unauthorized);
        }
        if slot == 1 {
            self.relayers.first = relayer;
        } else if slot == 2 {
            self.relayers.second = relayer;
        } else if slot == 3 {
            self.relayers.third = relayer;
        } else {
            return Err(PolicyError::InvalidSlot);
        }
        Ok(())
    }

    /// The outcome of `submit_attestation`.
    pub open spec fn submit_result(self, caller: Seq<u8>, index: u8, percent: u16, tests_passed: bool) -> Result<
        Attestation,
        PolicyError,
    > {
        if !self.relayers.admits(caller) {
            Err(PolicyError::Unauthorized)
        } else if !valid_index(index as int) {
            Err(PolicyError::InvalidMilestoneIndex)
        } else if percent > BPS_MAX {
            Err(PolicyError::PercentOutOfRange)
        } else if passes_policy(
            self.policy,
            self.last_percent.at(index as int),
            percent as int,
            tests_passed,
        ) {
            Ok(Attestation::Accepted { target: self.escrow_target, index, percent })
        } else {
            Ok(Attestation::Rejected)
        }
    }

    /// Checks a relayer's attestation against the policy. On acceptance the
    /// milestone's recorded percentage rises and the forward is returned.
    pub fn submit_attestation(&mut self, caller: &Identity, index: u8, percent: u16, tests_passed: bool) -> (r: Result<
        Attestation,
        PolicyError,
    >)
        requires
            old(self).wf(),
        ensures
            r == old(self).submit_result(caller@, index, percent, tests_passed),
            *final(self) == (if r matches Ok(Attestation::Accepted { .. }) {
                old(self).attested(index, percent)
            } else {
                *old(self)
            }),
            final(self).wf(),
            old(self).last_percent.below(final(self).last_percent),
    {
        if !self.relayers.contains(caller) {
            return Err(PolicyError::Unauthorized);
        }
        if index < 1 || index > 3 {
            return Err(PolicyError::InvalidMilestoneIndex);
        }
        if percent > BPS_MAX {
            return Err(PolicyError::PercentOutOfRange);
        }
        let last = self.last_percent.get(index);
        let is_monotonic = percent > last;
        let meets_min_step = percent.saturating_sub(last) >= self.policy.min_step_bps;
        let tests_ok = !self.policy.test_required || tests_passed;
        if is_monotonic && meets_min_step && tests_ok {
            self.last_percent.set(index, percent);
            Ok(Attestation::Accepted { target: self.escrow_target, index, percent })
        } else {
            Ok(Attestation::Rejected)
        }
    }

    /// The percentage last accepted for milestone `index`.
    pub fn get_last_percent(&self, index: u8) -> (r: Result<u16, PolicyError>)
        ensures
            valid_index(index as int) ==> r == Ok::<u16, PolicyError>(
                self.last_percent.at(index as int) as u16,
            ),
            !valid_index(index as int) ==> r == Err::<u16, PolicyError>(
                PolicyError::InvalidMilestoneIndex,
            ),
    {
        if index < 1 || index > 3 {
            return Err(PolicyError::InvalidMilestoneIndex);
        }
        Ok(self.last_percent.get(index))
    }

    /// The outcome of `set_escrow_target`.
    pub open spec fn target_result(self, caller: Seq<u8>, target: Seq<u8>) -> Result<(), PolicyError> {
        if caller != self.admin@ {
            Err(PolicyError::Unauthorized)
        } else if target == zero_bytes() {
            Err(PolicyError::ZeroEscrowTarget)
        } else {
            Ok(())
        }
    }

    /// Redirects accepted updates to `target`, which must not be zero; admin only.
    pub fn set_escrow_target(&mut self, caller: &Identity, target: Identity) -> (r: Result<(), PolicyError>)
        requires
            old(self).wf(),
        ensures
            r == old(self).target_result(caller@, target@),
            *final(self) == (if r is Ok {
                old(self).with_target(target)
            } else {
                *old(self)
            }),
            final(self).wf(),
    {
        if !caller.same_as(&self.admin) {
            return Err(PolicyError::Unauthorized);
        }
        if target.is_zero() {
            return Err(PolicyError::ZeroEscrowTarget);
        }
        self.escrow_target = target;
        Ok(())
    }
}

} // verus!
