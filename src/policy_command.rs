//! The policy engine's binary commands, its replies, and the update it
//! forwards to the escrow ledger.
use vstd::prelude::*;
use crate::identity::{Identity, zero_bytes};
use crate::milestones::valid_index;
use crate::policy::{PolicyEngine, PolicyError, Policy, Attestation};
use crate::escrow_command::{EscrowCommand, escrow_encodes};
use crate::wire::{le_value, read_le, u16_le_bytes};

verus! {

/// Smallest milestone rise a fresh engine accepts, in basis points.
pub const DEFAULT_MIN_STEP_BPS: u16 = 200;

/// A decoded policy-engine command.
#[derive(Clone, Copy, Debug)]
pub enum PolicyCommand {
    SetRelayer { relayer: Identity, slot: u8 },
    SubmitAttestation { index: u8, percent: u16, tests_passed: bool },
    GetLastPercent { index: u8 },
    SetEscrowTarget { target: Identity },
}

/// What a policy-engine command completed with.
#[derive(Clone, Copy, Debug)]
pub enum PolicyReply {
    /// The command took effect.
    Done,
    /// The attestation failed the policy; nothing changed.
    Rejected,
    /// The attestation was accepted: milestone `index` at `percent` must be
    /// delivered to the escrow `target` for the call to complete.
    Forward { target: Identity, index: u8, percent: u16 },
    /// The percentage last accepted for the milestone asked about.
    LastPercent { percent: u16 },
}

/// Whether `b` has a known opcode, the length its payload takes, and a
/// test flag of 0 or 1.
pub open spec fn policy_frame_ok(b: Seq<u8>) -> bool {
    &&& b.len() >= 1
    &&& {
        ||| b[0] == 1 && b.len() == 34
        ||| b[0] == 2 && b.len() == 5 && (b[4] == 0 || b[4] == 1)
        ||| b[0] == 3 && b.len() == 2
        ||| b[0] == 4 && b.len() == 33
    }
}

/// Whether the bytes `b` encode the command `c`.
pub open spec fn policy_encodes(b: Seq<u8>, c: PolicyCommand) -> bool {
    match c {
        PolicyCommand::SetRelayer { relayer, slot } => b.len() == 34 && b[0] == 1 && relayer@
            == b.subrange(1, 33) && slot == b[33],
        PolicyCommand::SubmitAttestation { index, percent, tests_passed } => b.len() == 5 && b[0]
            == 2 && index == b[1] && percent == le_value(b.subrange(2, 4)) && (b[4] == 0 || b[4]
            == 1) && tests_passed == (b[4] == 1),
        PolicyCommand::GetLastPercent { index } => b.len() == 2 && b[0] == 3 && index == b[1],
        PolicyCommand::SetEscrowTarget { target } => b.len() == 33 && b[0] == 4 && target@
            == b.subrange(1, 33),
    }
}

/// Decodes a policy-engine command; `None` for an unknown opcode, a payload
/// of the wrong length, or a test flag other than 0 or 1.
pub fn decode_policy_command(b: &[u8]) -> (r: Option<PolicyCommand>)
    ensures
        r is Some <==> policy_frame_ok(b@),
        r matches Some(c) ==> policy_encodes(b@, c),
{
    let n = b.len();
    if n == 0 {
        return None;
    }
    let op = b[0];
    if op == 1 && n == 34 {
        Some(PolicyCommand::SetRelayer { relayer: Identity::read_from(b, 1), slot: b[33] })
    } else if op == 2 && n == 5 && (b[4] == 0 || b[4] == 1) {
        let percent = read_le(b, 2, 2);
        proof {
            reveal_with_fuel(crate::wire::pow256, 3);
        }
        Some(
            PolicyCommand::SubmitAttestation {
                index: b[1],
                percent: percent as u16,
                tests_passed: b[4] == 1,
            },
        )
    } else if op == 3 && n == 2 {
        Some(PolicyCommand::GetLastPercent { index: b[1] })
    } else if op == 4 && n == 33 {
        Some(PolicyCommand::SetEscrowTarget { target: Identity::read_from(b, 1) })
    } else {
        None
    }
}

/// At most one command is encoded by given bytes.
pub proof fn lemma_policy_encoding_unique(b: Seq<u8>, c: PolicyCommand, d: PolicyCommand)
    requires
        policy_encodes(b, c),
        policy_encodes(b, d),
    ensures
        c == d,
{
    match c {
        PolicyCommand::SetRelayer { relayer, .. } => {
            if let PolicyCommand::SetRelayer { relayer: e, .. } = d {
                assert(relayer.bytes =~= e.bytes);
            }
        },
        PolicyCommand::SetEscrowTarget { target } => {
            if let PolicyCommand::SetEscrowTarget { target: e } = d {
                assert(target.bytes =~= e.bytes);
            }
        },
        _ => {},
    }
}

/// The escrow command that carries an accepted attestation.
pub fn encode_apply_progress(index: u8, percent: u16) -> (r: Vec<u8>)
    ensures
        escrow_encodes(r@, EscrowCommand::ApplyProgress { index, percent }),
{
    let (lo, hi) = u16_le_bytes(percent);
    let r = vec![4u8, index, lo, hi];
    proof {
        assert(r@.subrange(2, 4) =~= seq![lo, hi]);
    }
    r
}

impl PolicyReply {
    /// The reply bytes: 1 for done or forwarded, 0 for rejected, and the
    /// percentage as two little-endian bytes for a query.
    pub fn to_bytes(&self) -> (r: Vec<u8>)
        ensures
            self matches PolicyReply::LastPercent { percent } ==> r@.len() == 2 && le_value(r@)
                == percent,
            (self is Done || self is Forward) ==> r@ == seq![1u8],
            self is Rejected ==> r@ == seq![0u8],
    {
        match self {
            PolicyReply::LastPercent { percent } => {
                let (lo, hi) = u16_le_bytes(*percent);
                let r = vec![lo, hi];
                assert(r@ =~= seq![lo, hi]);
                r
            },
            PolicyReply::Rejected => {
                let r = vec![0u8];
                assert(r@ =~= seq![0u8]);
                r
            },
            _ => {
                let r = vec![1u8];
                assert(r@ =~= seq![1u8]);
                r
            },
        }
    }
}

impl PolicyEngine {
    /// The reply to command `c` from `caller`.
    pub open spec fn command_result(self, caller: Seq<u8>, c: PolicyCommand) -> Result<PolicyReply, PolicyError> {
        match c {
            PolicyCommand::SetRelayer { slot, .. } => match self.set_relayer_result(caller, slot) {
                Ok(_) => Ok(PolicyReply::Done),
                Err(e) => Err(e),
            },
            PolicyCommand::SubmitAttestation { index, percent, tests_passed } => match self.submit_result(
                caller,
                index,
                percent,
                tests_passed,
            ) {
                Ok(Attestation::Accepted { target, index, percent }) => Ok(
                    PolicyReply::Forward { target, index, percent },
                ),
                Ok(Attestation::Rejected) => Ok(PolicyReply::Rejected),
                Err(e) => Err(e),
            },
            PolicyCommand::GetLastPercent { index } => if valid_index(index as int) {
                Ok(PolicyReply::LastPercent { percent: self.last_percent.at(index as int) as u16 })
            } else {
                Err(PolicyError::InvalidMilestoneIndex)
            },
            PolicyCommand::SetEscrowTarget { target } => match self.target_result(caller, target@) {
                Ok(_) => Ok(PolicyReply::Done),
                Err(e) => Err(e),
            },
        }
    }

    /// The engine after command `c` from `caller`.
    pub open spec fn after_command(self, caller: Seq<u8>, c: PolicyCommand) -> PolicyEngine {
        match c {
            PolicyCommand::SetRelayer { relayer, slot } => if self.set_relayer_result(caller, slot) is Ok {
                self.with_relayer(slot, relayer)
            } else {
                self
            },
            PolicyCommand::SubmitAttestation { index, percent, tests_passed } => if self.submit_result(
                caller,
                index,
                percent,
                tests_passed,
            ) matches Ok(Attestation::Accepted { .. }) {
                self.attested(index, percent)
            } else {
                self
            },
            PolicyCommand::GetLastPercent { .. } => self,
            PolicyCommand::SetEscrowTarget { target } => if self.target_result(caller, target@) is Ok {
                self.with_target(target)
            } else {
                self
            },
        }
    }

    /// Runs one decoded command from `caller`.
    pub fn execute(&mut self, caller: &Identity, c: PolicyCommand) -> (r: Result<PolicyReply, PolicyError>)
        requires
            old(self).wf(),
        ensures
            r == old(self).command_result(caller@, c),
            *final(self) == old(self).after_command(caller@, c),
            final(self).wf(),
            old(self).last_percent.below(final(self).last_percent),
    {
        match c {
            PolicyCommand::SetRelayer { relayer, slot } => match self.set_relayer(caller, relayer, slot) {
                Ok(_) => Ok(PolicyReply::Done),
                Err(e) => Err(e),
            },
            PolicyCommand::SubmitAttestation { index, percent, tests_passed } => {
                match self.submit_attestation(caller, index, percent, tests_passed) {
                    Ok(Attestation::Accepted { target, index, percent }) => Ok(
                        PolicyReply::Forward { target, index, percent },
                    ),
                    Ok(Attestation::Rejected) => Ok(PolicyReply::Rejected),
                    Err(e) => Err(e),
                }
            },
            PolicyCommand::GetLastPercent { index } => match self.get_last_percent(index) {
                Ok(percent) => Ok(PolicyReply::LastPercent { percent }),
                Err(e) => Err(e),
            },
            PolicyCommand::SetEscrowTarget { target } => match self.set_escrow_target(caller, target) {
                Ok(_) => Ok(PolicyReply::Done),
                Err(e) => Err(e),
            },
        }
    }

    /// Decodes and runs one binary command from `caller`. A malformed command
    /// is a hard failure that changes nothing. A `Forward` reply completes
    /// only once it is delivered: where delivery fails, the caller keeps the
    /// engine as it was before this call.
    pub fn handle(&mut self, caller: &Identity, command: &[u8]) -> (r: Result<PolicyReply, PolicyError>)
        requires
            old(self).wf(),
        ensures
            !policy_frame_ok(command@) ==> r == Err::<PolicyReply, PolicyError>(
                PolicyError::MalformedCommand,
            ) && *final(self) == *old(self),
            forall|c: PolicyCommand| #[trigger]
                policy_encodes(command@, c) ==> r == old(self).command_result(caller@, c)
                    && *final(self) == old(self).after_command(caller@, c),
            final(self).wf(),
            old(self).last_percent.below(final(self).last_percent),
    {
        match decode_policy_command(command) {
            None => Err(PolicyError::MalformedCommand),
            Some(c) => {
                proof {
                    assert forall|d: PolicyCommand| #[trigger]
                        policy_encodes(command@, d) implies d == c by {
                        lemma_policy_encoding_unique(command@, c, d);
                    }
                }
                self.execute(caller, c)
            },
        }
    }

    /// An engine administered by `admin` from the 33-byte set-up payload: a
    /// reserved byte, then the escrow target's identity. It starts with the
    /// default policy: a 200 bps minimum step, passing tests required.
    pub fn from_init_payload(admin: Identity, payload: &[u8]) -> (r: Result<PolicyEngine, PolicyError>)
        ensures
            payload@.len() != 33 ==> r == Err::<PolicyEngine, PolicyError>(
                PolicyError::MalformedCommand,
            ),
            payload@.len() == 33 ==> (r matches Ok(e) && e.wf() && e.admin == admin
                && e.escrow_target@ == payload@.subrange(1, 33)
                && e.policy == (Policy { min_step_bps: DEFAULT_MIN_STEP_BPS, test_required: true })
                && e.last_percent.total() == 0 && e.relayers.first@ == zero_bytes()
                && e.relayers.second@ == zero_bytes() && e.relayers.third@ == zero_bytes()),
    {
        if payload.len() != 33 {
            return Err(PolicyError::MalformedCommand);
        }
        let target = Identity::read_from(payload, 1);
        let policy = Policy { min_step_bps: DEFAULT_MIN_STEP_BPS, test_required: true };
        Ok(PolicyEngine::new(admin, target, policy))
    }
}

} // verus!
