//! A policy engine and the escrow ledger it feeds, run side by side so that
//! an accepted attestation and the escrow update it causes form one step.
use vstd::prelude::*;
use crate::identity::Identity;
use crate::escrow::{EscrowLedger, EscrowError, ProgressOutcome};
use crate::policy::{PolicyEngine, PolicyError, Attestation};

verus! {

/// Hard failures of a deployment step; the step changes nothing.
#[derive(Clone, Copy, Debug, PartialEq, Eq, Structural)]
pub enum DeploymentError {
    Policy(PolicyError),
    Escrow(EscrowError),
    /// The policy engine forwards to an identity other than the escrow's.
    Undeliverable,
}

/// The two components and the identities they are addressed by.
#[derive(Clone, Copy, Debug)]
pub struct Deployment {
    pub escrow: EscrowLedger,
    pub escrow_id: Identity,
    pub policy: PolicyEngine,
    pub policy_id: Identity,
}

impl Deployment {
    /// Both components are well formed and the engine's view of each
    /// milestone never runs ahead of the escrow's.
    pub open spec fn wf(self) -> bool {
        &&& self.escrow.wf()
        &&& self.policy.wf()
        &&& self.policy.last_percent.below(self.escrow.milestones)
    }

    /// The outcome of `submit_attestation`.
    pub open spec fn submit_result(self, caller: Seq<u8>, index: u8, percent: u16, tests_passed: bool) -> Result<
        Attestation,
        DeploymentError,
    > {
        match self.policy.submit_result(caller, index, percent, tests_passed) {
            Err(e) => Err(DeploymentError::Policy(e)),
            Ok(Attestation::Rejected) => Ok(Attestation::Rejected),
            Ok(Attestation::Accepted { target, index, percent }) => if target@ != self.escrow_id@ {
                Err(DeploymentError::Undeliverable)
            } else {
                match self.escrow.apply_result(self.policy_id@, index, percent) {
                    Err(e) => Err(DeploymentError::Escrow(e)),
                    Ok(_) => Ok(Attestation::Accepted { target, index, percent }),
                }
            },
        }
    }

    /// A relayer's attestation, carried through to the escrow when the
    /// policy accepts it. Either both components take the update or neither
    /// changes.
    pub fn submit_attestation(&mut self, caller: &Identity, index: u8, percent: u16, tests_passed: bool) -> (r: Result<
        Attestation,
        DeploymentError,
    >)
        requires
            old(self).wf(),
        ensures
            r == old(self).submit_result(caller@, index, percent, tests_passed),
            (r matches Ok(Attestation::Accepted { .. })) ==> {
                &&& final(self).policy == old(self).policy.attested(index, percent)
                &&& final(self).escrow == (if old(self).escrow.apply_result(
                    old(self).policy_id@,
                    index,
                    percent,
                ) matches Ok(ProgressOutcome::Applied { .. }) {
                    old(self).escrow.progressed(index, percent)
                } else {
                    old(self).escrow
                })
                &&& final(self).escrow_id == old(self).escrow_id
                &&& final(self).policy_id == old(self).policy_id
            },
            !(r matches Ok(Attestation::Accepted { .. })) ==> *final(self) == *old(self),
            final(self).wf(),
            old(self).escrow.evolves_to(final(self).escrow),
            old(self).policy.last_percent.below(final(self).policy.last_percent),
    {
        let mut staged = self.policy;
        match staged.submit_attestation(caller, index, percent, tests_passed) {
            Err(e) => Err(DeploymentError::Policy(e)),
            Ok(Attestation::Rejected) => Ok(Attestation::Rejected),
            Ok(Attestation::Accepted { target, index, percent }) => {
                if !target.same_as(&self.escrow_id) {
                    return Err(DeploymentError::Undeliverable);
                }
                let sender = self.policy_id;
                match self.escrow.apply_progress(&sender, index, percent) {
                    Err(e) => Err(DeploymentError::Escrow(e)),
                    Ok(_) => {
                        self.policy = staged;
                        Ok(Attestation::Accepted { target, index, percent })
                    },
                }
            },
        }
    }
}

} // verus!
